# rproc

The logic of a Linux system monitor, verified with Verus:

- `src/monitor/gpu.rs` — which DRM cards are GPUs of which vendor, the
  stable ordering of Intel cards by card number, the perf PMU names to try
  per card, parsing of the sysfs PMU files (event spec, cpumask, numbers),
  devfreq and clock readings, and the rc6 counter intervals that Intel GPU
  utilisation is derived from.
- `src/monitor/notify.rs` — when CPU and RAM threshold alerts fire
  (disabled thresholds, per-metric cooldown).
- `src/theme.rs` — the theme choice, its resolution to a dark or light
  palette (throttled probing of the desktop preference), when the style
  must be rebuilt, the palettes, and parsing of the portal and gsettings
  replies.
- `src/i18n/` — the interface language, its detection from locale values,
  and the English and French message bundles.
- `src/ui/settings.rs` — the settings tab state and interval labels.
- `src/text.rs` — the character-level operations the parsers are built
  from (trim, split, prefixes, decimal and hexadecimal numbers), each
  specified over `Seq<char>`.

`app/` holds what talks to the system and draws: sysfs and NVML reads, the
perf_event_open syscall, environment variables, desktop notifications,
theme probes and the egui style. It hands plain values to the library and
acts on its answers.
