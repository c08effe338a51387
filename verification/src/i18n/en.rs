//! The English message bundle.
use vstd::prelude::*;

use super::Messages;

verus! {

/// The English texts.
pub open spec fn bundle() -> Messages {
    Messages {
        tab_processes: "Processes",
        tab_performance: "Performance",
        tab_startup: "Startup",
        tab_services: "Services",
        tab_settings: "Settings",
        proc_heading: "Processes",
        proc_end_task: "End task",
        proc_force_kill: "Force kill",
        proc_end_task_n: "End task ({n})",
        proc_force_kill_n: "Force kill ({n})",
        proc_filter_hint: "Filter by name, PID or user…",
        proc_view_tree: "Tree",
        proc_view_grouped: "Grouped",
        proc_col_name: "Name",
        proc_col_pid: "PID",
        proc_col_user: "User",
        proc_col_cpu: "CPU  {:.0}%",
        proc_col_mem: "Memory  {:.0}%",
        proc_col_disk: "Disk",
        proc_col_status: "Status",
        proc_section_apps: "Apps",
        proc_section_bg: "Background processes",
        proc_count: "{total} processes",
        proc_sampling: "sampling…",
        ctx_end_task: "End task",
        ctx_force_kill: "Force kill",
        ctx_suspend: "Suspend",
        ctx_resume: "Resume",
        ctx_open_location: "Open file location",
        ctx_search_online: "Search online",
        ctx_copy_pid: "Copy PID",
        ctx_copy_name: "Copy name",
        ctx_copy_cmd: "Copy command line",
        ctx_properties: "Properties",
        ctx_end_all: "End all ({n})",
        ctx_force_kill_all: "Force kill all ({n})",
        ctx_suspend_all: "Suspend all",
        ctx_resume_all: "Resume all",
        ctx_copy_all_pids: "Copy all PIDs",
        ctx_properties_main: "Properties (main process)",
        prop_title: "Properties: {name}",
        prop_reload: "Reload",
        prop_pid: "PID",
        prop_parent_pid: "Parent PID",
        prop_user: "User",
        prop_status: "Status",
        prop_cpu: "CPU",
        prop_mem_rss: "Memory (RSS)",
        prop_virt_mem: "Virtual memory",
        prop_threads: "Threads",
        prop_fds: "Open files",
        prop_running_for: "Running for",
        prop_executable: "Executable",
        prop_working_dir: "Working directory",
        prop_config: "Configuration",
        prop_cmdline: "Command line",
        prop_dash: "—",
        status_running: "Running",
        status_idle: "Idle",
        status_waiting: "Waiting",
        status_stopped: "Stopped",
        status_zombie: "Zombie",
        perf_cpu: "CPU",
        perf_memory: "Memory",
        perf_gpu: "GPU {i} ({vendor})",
        perf_disk: "Disk {name}",
        perf_show_details: "Show details",
        perf_hide_details: "Hide details",
        perf_cpu_total_plot: "Total CPU usage",
        perf_current: "Current",
        perf_uptime: "Uptime",
        perf_per_core: "Per core",
        perf_core: "Core {n}",
        perf_ram_plot: "Memory usage",
        perf_used: "Used",
        perf_available: "Available",
        perf_swap_total: "Swap total",
        perf_swap_used: "Swap used",
        perf_swap_plot: "Swap usage",
        perf_disk_plot: "Disk activity",
        perf_read: "Read",
        perf_write: "Write",
        perf_total: "Total",
        perf_used_space: "Used space",
        perf_mount: "Mount point",
        perf_net_plot: "Throughput",
        perf_receive: "Receive",
        perf_send: "Send",
        perf_total_recv: "Total received",
        perf_total_sent: "Total sent",
        perf_gpu_plot: "GPU utilisation",
        perf_gpu_util: "Utilisation",
        perf_gpu_vram: "Video memory",
        perf_gpu_temp: "Temperature",
        perf_gpu_power: "Power",
        perf_gpu_core_clock: "Core clock",
        perf_gpu_mem_clock: "Memory clock",
        perf_gpu_unavailable: "N/A",
        perf_no_disk: "No disk found",
        perf_no_iface: "No network interface found",
        perf_no_gpu: "No GPU found",
        iface_wifi: "Wi-Fi",
        iface_mobile: "Mobile broadband",
        iface_usb: "USB",
        iface_ethernet: "Ethernet",
        iface_network: "Network",
        startup_heading: "Startup apps",
        startup_filter_hint: "Filter startup apps…",
        startup_desc: "Programs and services started when you log in.",
        startup_min_boot: "Minimum boot time",
        startup_section_normal: "Startup apps",
        startup_section_protected: "Protected",
        startup_protected_desc: "Needed by the system; they cannot be disabled here.",
        startup_enabled: "Enabled",
        startup_disabled: "Disabled",
        startup_protected_label: "Protected",
        startup_boot_presets: &[("All", "0 ms"), ("≥ 100 ms", "100 ms"), ("≥ 500 ms", "500 ms"), ("≥ 1 s", "1 s")],
        svc_heading: "Services",
        svc_filter_hint: "Filter units…",
        svc_running_only: "Running only",
        svc_desc: "systemd units of the system and of your session.",
        svc_col_unit: "Unit",
        svc_col_scope: "Scope",
        svc_col_active: "Active",
        svc_col_sub: "State",
        svc_col_desc: "Description",
        svc_col_actions: "Actions",
        svc_start: "Start",
        svc_stop: "Stop",
        svc_restart: "Restart",
        svc_scope_system: "System",
        svc_scope_user: "User",
        svc_units_shown: "{n} units shown",
        svc_reload: "Reload",
        svc_ctx_copy_unit: "Copy unit name",
        svc_ctx_properties: "Properties",
        svc_prop_title: "Service properties",
        svc_prop_unit: "Unit",
        svc_prop_scope: "Scope",
        svc_prop_desc: "Description",
        svc_prop_load: "Load state",
        svc_prop_active: "Active state",
        svc_prop_sub: "Sub-state",
        svc_prop_unit_file_state: "Unit file state",
        svc_prop_main_pid: "Main PID",
        svc_prop_user: "User",
        svc_prop_mem: "Memory",
        svc_prop_tasks: "Tasks",
        svc_prop_unit_file: "Unit file",
        svc_prop_dropins: "Drop-ins",
        svc_prop_workdir: "Working directory",
        svc_prop_execstart: "ExecStart",
        set_heading: "Settings",
        set_desc: "Tweak how rproc samples and displays system data.",
        set_refresh_title: "Refresh rate",
        set_refresh_desc: "How often the sampler thread polls the system. Lower intervals feel snappier but use more CPU.",
        set_custom: "Custom",
        set_currently: "Currently sampling every",
        set_bg_title: "Background history",
        set_bg_desc: "Run a tiny background process that records the last 60 s of CPU, memory, disk, network and GPU activity.",
        set_bg_checkbox: "Keep recording in the background",
        set_bg_running: "Background recorder is running",
        set_bg_off: "Background recorder is off",
        set_notif_title: "Notifications",
        set_notif_desc: "Get a desktop notification when CPU or RAM usage exceeds a threshold. Set a value to 0% to disable alerts for that metric.",
        set_notif_cpu: "CPU threshold",
        set_notif_ram: "RAM threshold",
        set_notif_cooldown: "Cooldown",
        set_appearance_title: "Appearance",
        set_appearance_desc: "Switch between dark, light, or follow your system preference.",
        set_theme_system: "System",
        set_theme_dark: "Dark",
        set_theme_light: "Light",
        set_about_title: "About",
        set_version: "Version",
        set_build: "Build",
        set_build_debug: "Debug",
        set_build_release: "Release",
        notif_cpu_body: "CPU usage at {:.0}% (threshold: {}%)",
        notif_ram_body: "RAM usage at {:.0}% (threshold: {}%)",
        open_in_fm: "Open in file manager",
        gpu_unavailable_detail_intel: "Intel GPU utilisation needs access to the perf PMU.",
        gpu_unavailable_detail_other: "The driver does not report utilisation.",
        gpu_unavailable_fix_label: "To enable it, run one of:",
        gpu_unavailable_fix_cap: "sudo setcap cap_perfmon=ep <binary>",
        gpu_unavailable_fix_sysctl: "sudo sysctl kernel.perf_event_paranoid=2",
        perf_partitions: "Partitions",
        perf_partition: "Partition",
        scope_user_autostart: "User autostart",
        scope_system_autostart: "System autostart",
        scope_systemd_system: "systemd (system)",
        scope_systemd_user: "systemd (user)",
        startup_ctx_copy_name: "Copy name",
        startup_ctx_open_desktop: "Open .desktop file",
        startup_ctx_properties: "Properties",
        startup_prop_title: "Startup entry properties",
        startup_prop_name: "Name",
        startup_prop_source: "Source",
        startup_prop_description: "Description",
        startup_prop_boot_time: "Boot time",
        startup_prop_state: "State",
        startup_prop_state_protected: "Protected",
        startup_prop_state_enabled: "Enabled",
        startup_prop_state_disabled: "Disabled",
        startup_prop_desktop_file: "Desktop file",
        startup_prop_exec: "Command",
        startup_prop_icon: "Icon",
    }
}

/// The English texts.
pub fn msg() -> (r: Messages)
    ensures
        r == bundle(),
{
    Messages {
        tab_processes: "Processes",
        tab_performance: "Performance",
        tab_startup: "Startup",
        tab_services: "Services",
        tab_settings: "Settings",
        proc_heading: "Processes",
        proc_end_task: "End task",
        proc_force_kill: "Force kill",
        proc_end_task_n: "End task ({n})",
        proc_force_kill_n: "Force kill ({n})",
        proc_filter_hint: "Filter by name, PID or user…",
        proc_view_tree: "Tree",
        proc_view_grouped: "Grouped",
        proc_col_name: "Name",
        proc_col_pid: "PID",
        proc_col_user: "User",
        proc_col_cpu: "CPU  {:.0}%",
        proc_col_mem: "Memory  {:.0}%",
        proc_col_disk: "Disk",
        proc_col_status: "Status",
        proc_section_apps: "Apps",
        proc_section_bg: "Background processes",
        proc_count: "{total} processes",
        proc_sampling: "sampling…",
        ctx_end_task: "End task",
        ctx_force_kill: "Force kill",
        ctx_suspend: "Suspend",
        ctx_resume: "Resume",
        ctx_open_location: "Open file location",
        ctx_search_online: "Search online",
        ctx_copy_pid: "Copy PID",
        ctx_copy_name: "Copy name",
        ctx_copy_cmd: "Copy command line",
        ctx_properties: "Properties",
        ctx_end_all: "End all ({n})",
        ctx_force_kill_all: "Force kill all ({n})",
        ctx_suspend_all: "Suspend all",
        ctx_resume_all: "Resume all",
        ctx_copy_all_pids: "Copy all PIDs",
        ctx_properties_main: "Properties (main process)",
        prop_title: "Properties: {name}",
        prop_reload: "Reload",
        prop_pid: "PID",
        prop_parent_pid: "Parent PID",
        prop_user: "User",
        prop_status: "Status",
        prop_cpu: "CPU",
        prop_mem_rss: "Memory (RSS)",
        prop_virt_mem: "Virtual memory",
        prop_threads: "Threads",
        prop_fds: "Open files",
        prop_running_for: "Running for",
        prop_executable: "Executable",
        prop_working_dir: "Working directory",
        prop_config: "Configuration",
        prop_cmdline: "Command line",
        prop_dash: "—",
        status_running: "Running",
        status_idle: "Idle",
        status_waiting: "Waiting",
        status_stopped: "Stopped",
        status_zombie: "Zombie",
        perf_cpu: "CPU",
        perf_memory: "Memory",
        perf_gpu: "GPU {i} ({vendor})",
        perf_disk: "Disk {name}",
        perf_show_details: "Show details",
        perf_hide_details: "Hide details",
        perf_cpu_total_plot: "Total CPU usage",
        perf_current: "Current",
        perf_uptime: "Uptime",
        perf_per_core: "Per core",
        perf_core: "Core {n}",
        perf_ram_plot: "Memory usage",
        perf_used: "Used",
        perf_available: "Available",
        perf_swap_total: "Swap total",
        perf_swap_used: "Swap used",
        perf_swap_plot: "Swap usage",
        perf_disk_plot: "Disk activity",
        perf_read: "Read",
        perf_write: "Write",
        perf_total: "Total",
        perf_used_space: "Used space",
        perf_mount: "Mount point",
        perf_net_plot: "Throughput",
        perf_receive: "Receive",
        perf_send: "Send",
        perf_total_recv: "Total received",
        perf_total_sent: "Total sent",
        perf_gpu_plot: "GPU utilisation",
        perf_gpu_util: "Utilisation",
        perf_gpu_vram: "Video memory",
        perf_gpu_temp: "Temperature",
        perf_gpu_power: "Power",
        perf_gpu_core_clock: "Core clock",
        perf_gpu_mem_clock: "Memory clock",
        perf_gpu_unavailable: "N/A",
        perf_no_disk: "No disk found",
        perf_no_iface: "No network interface found",
        perf_no_gpu: "No GPU found",
        iface_wifi: "Wi-Fi",
        iface_mobile: "Mobile broadband",
        iface_usb: "USB",
        iface_ethernet: "Ethernet",
        iface_network: "Network",
        startup_heading: "Startup apps",
        startup_filter_hint: "Filter startup apps…",
        startup_desc: "Programs and services started when you log in.",
        startup_min_boot: "Minimum boot time",
        startup_section_normal: "Startup apps",
        startup_section_protected: "Protected",
        startup_protected_desc: "Needed by the system; they cannot be disabled here.",
        startup_enabled: "Enabled",
        startup_disabled: "Disabled",
        startup_protected_label: "Protected",
        startup_boot_presets: &[("All", "0 ms"), ("≥ 100 ms", "100 ms"), ("≥ 500 ms", "500 ms"), ("≥ 1 s", "1 s")],
        svc_heading: "Services",
        svc_filter_hint: "Filter units…",
        svc_running_only: "Running only",
        svc_desc: "systemd units of the system and of your session.",
        svc_col_unit: "Unit",
        svc_col_scope: "Scope",
        svc_col_active: "Active",
        svc_col_sub: "State",
        svc_col_desc: "Description",
        svc_col_actions: "Actions",
        svc_start: "Start",
        svc_stop: "Stop",
        svc_restart: "Restart",
        svc_scope_system: "System",
        svc_scope_user: "User",
        svc_units_shown: "{n} units shown",
        svc_reload: "Reload",
        svc_ctx_copy_unit: "Copy unit name",
        svc_ctx_properties: "Properties",
        svc_prop_title: "Service properties",
        svc_prop_unit: "Unit",
        svc_prop_scope: "Scope",
        svc_prop_desc: "Description",
        svc_prop_load: "Load state",
        svc_prop_active: "Active state",
        svc_prop_sub: "Sub-state",
        svc_prop_unit_file_state: "Unit file state",
        svc_prop_main_pid: "Main PID",
        svc_prop_user: "User",
        svc_prop_mem: "Memory",
        svc_prop_tasks: "Tasks",
        svc_prop_unit_file: "Unit file",
        svc_prop_dropins: "Drop-ins",
        svc_prop_workdir: "Working directory",
        svc_prop_execstart: "ExecStart",
        set_heading: "Settings",
        set_desc: "Tweak how rproc samples and displays system data.",
        set_refresh_title: "Refresh rate",
        set_refresh_desc: "How often the sampler thread polls the system. Lower intervals feel snappier but use more CPU.",
        set_custom: "Custom",
        set_currently: "Currently sampling every",
        set_bg_title: "Background history",
        set_bg_desc: "Run a tiny background process that records the last 60 s of CPU, memory, disk, network and GPU activity.",
        set_bg_checkbox: "Keep recording in the background",
        set_bg_running: "Background recorder is running",
        set_bg_off: "Background recorder is off",
        set_notif_title: "Notifications",
        set_notif_desc: "Get a desktop notification when CPU or RAM usage exceeds a threshold. Set a value to 0% to disable alerts for that metric.",
        set_notif_cpu: "CPU threshold",
        set_notif_ram: "RAM threshold",
        set_notif_cooldown: "Cooldown",
        set_appearance_title: "Appearance",
        set_appearance_desc: "Switch between dark, light, or follow your system preference.",
        set_theme_system: "System",
        set_theme_dark: "Dark",
        set_theme_light: "Light",
        set_about_title: "About",
        set_version: "Version",
        set_build: "Build",
        set_build_debug: "Debug",
        set_build_release: "Release",
        notif_cpu_body: "CPU usage at {:.0}% (threshold: {}%)",
        notif_ram_body: "RAM usage at {:.0}% (threshold: {}%)",
        open_in_fm: "Open in file manager",
        gpu_unavailable_detail_intel: "Intel GPU utilisation needs access to the perf PMU.",
        gpu_unavailable_detail_other: "The driver does not report utilisation.",
        gpu_unavailable_fix_label: "To enable it, run one of:",
        gpu_unavailable_fix_cap: "sudo setcap cap_perfmon=ep <binary>",
        gpu_unavailable_fix_sysctl: "sudo sysctl kernel.perf_event_paranoid=2",
        perf_partitions: "Partitions",
        perf_partition: "Partition",
        scope_user_autostart: "User autostart",
        scope_system_autostart: "System autostart",
        scope_systemd_system: "systemd (system)",
        scope_systemd_user: "systemd (user)",
        startup_ctx_copy_name: "Copy name",
        startup_ctx_open_desktop: "Open .desktop file",
        startup_ctx_properties: "Properties",
        startup_prop_title: "Startup entry properties",
        startup_prop_name: "Name",
        startup_prop_source: "Source",
        startup_prop_description: "Description",
        startup_prop_boot_time: "Boot time",
        startup_prop_state: "State",
        startup_prop_state_protected: "Protected",
        startup_prop_state_enabled: "Enabled",
        startup_prop_state_disabled: "Disabled",
        startup_prop_desktop_file: "Desktop file",
        startup_prop_exec: "Command",
        startup_prop_icon: "Icon",
    }
}

} // verus!
