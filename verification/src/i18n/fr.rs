//! The French message bundle.
use vstd::prelude::*;

use super::Messages;

verus! {

/// The French texts.
pub open spec fn bundle() -> Messages {
    Messages {
        tab_processes: "Processus",
        tab_performance: "Performances",
        tab_startup: "Démarrage",
        tab_services: "Services",
        tab_settings: "Paramètres",
        proc_heading: "Processus",
        proc_end_task: "Terminer la tâche",
        proc_force_kill: "Forcer l'arrêt",
        proc_end_task_n: "Terminer la tâche ({n})",
        proc_force_kill_n: "Forcer l'arrêt ({n})",
        proc_filter_hint: "Filtrer par nom, PID ou utilisateur…",
        proc_view_tree: "Arborescence",
        proc_view_grouped: "Regroupé",
        proc_col_name: "Nom",
        proc_col_pid: "PID",
        proc_col_user: "Utilisateur",
        proc_col_cpu: "Processeur  {:.0}%",
        proc_col_mem: "Mémoire  {:.0}%",
        proc_col_disk: "Disque",
        proc_col_status: "État",
        proc_section_apps: "Applications",
        proc_section_bg: "Processus en arrière-plan",
        proc_count: "{total} processus",
        proc_sampling: "échantillonnage…",
        ctx_end_task: "Terminer la tâche",
        ctx_force_kill: "Forcer l'arrêt",
        ctx_suspend: "Suspendre",
        ctx_resume: "Reprendre",
        ctx_open_location: "Ouvrir l'emplacement du fichier",
        ctx_search_online: "Rechercher en ligne",
        ctx_copy_pid: "Copier le PID",
        ctx_copy_name: "Copier le nom",
        ctx_copy_cmd: "Copier la ligne de commande",
        ctx_properties: "Propriétés",
        ctx_end_all: "Tout terminer ({n})",
        ctx_force_kill_all: "Forcer l'arrêt de tout ({n})",
        ctx_suspend_all: "Tout suspendre",
        ctx_resume_all: "Tout reprendre",
        ctx_copy_all_pids: "Copier tous les PID",
        ctx_properties_main: "Propriétés (processus principal)",
        prop_title: "Propriétés : {name}",
        prop_reload: "Actualiser",
        prop_pid: "PID",
        prop_parent_pid: "PID parent",
        prop_user: "Utilisateur",
        prop_status: "État",
        prop_cpu: "Processeur",
        prop_mem_rss: "Mémoire (RSS)",
        prop_virt_mem: "Mémoire virtuelle",
        prop_threads: "Threads",
        prop_fds: "Fichiers ouverts",
        prop_running_for: "En cours depuis",
        prop_executable: "Exécutable",
        prop_working_dir: "Répertoire de travail",
        prop_config: "Configuration",
        prop_cmdline: "Ligne de commande",
        prop_dash: "—",
        status_running: "En cours",
        status_idle: "Inactif",
        status_waiting: "En attente",
        status_stopped: "Arrêté",
        status_zombie: "Zombie",
        perf_cpu: "Processeur",
        perf_memory: "Mémoire",
        perf_gpu: "GPU {i} ({vendor})",
        perf_disk: "Disque {name}",
        perf_show_details: "Afficher les détails",
        perf_hide_details: "Masquer les détails",
        perf_cpu_total_plot: "Utilisation totale du processeur",
        perf_current: "Actuel",
        perf_uptime: "Temps de fonctionnement",
        perf_per_core: "Par cœur",
        perf_core: "Cœur {n}",
        perf_ram_plot: "Utilisation de la mémoire",
        perf_used: "Utilisée",
        perf_available: "Disponible",
        perf_swap_total: "Swap total",
        perf_swap_used: "Swap utilisé",
        perf_swap_plot: "Utilisation du swap",
        perf_disk_plot: "Activité du disque",
        perf_read: "Lecture",
        perf_write: "Écriture",
        perf_total: "Total",
        perf_used_space: "Espace utilisé",
        perf_mount: "Point de montage",
        perf_net_plot: "Débit",
        perf_receive: "Réception",
        perf_send: "Envoi",
        perf_total_recv: "Total reçu",
        perf_total_sent: "Total envoyé",
        perf_gpu_plot: "Utilisation du GPU",
        perf_gpu_util: "Utilisation",
        perf_gpu_vram: "Mémoire vidéo",
        perf_gpu_temp: "Température",
        perf_gpu_power: "Consommation",
        perf_gpu_core_clock: "Fréquence du cœur",
        perf_gpu_mem_clock: "Fréquence de la mémoire",
        perf_gpu_unavailable: "N/D",
        perf_no_disk: "Aucun disque trouvé",
        perf_no_iface: "Aucune interface réseau trouvée",
        perf_no_gpu: "Aucun GPU trouvé",
        iface_wifi: "Wi-Fi",
        iface_mobile: "Haut débit mobile",
        iface_usb: "USB",
        iface_ethernet: "Ethernet",
        iface_network: "Réseau",
        startup_heading: "Applications au démarrage",
        startup_filter_hint: "Filtrer les applications au démarrage…",
        startup_desc: "Programmes et services lancés à l'ouverture de session.",
        startup_min_boot: "Durée de démarrage minimale",
        startup_section_normal: "Applications au démarrage",
        startup_section_protected: "Protégés",
        startup_protected_desc: "Nécessaires au système ; ils ne peuvent pas être désactivés ici.",
        startup_enabled: "Activé",
        startup_disabled: "Désactivé",
        startup_protected_label: "Protégé",
        startup_boot_presets: &[("Tous", "0 ms"), ("≥ 100 ms", "100 ms"), ("≥ 500 ms", "500 ms"), ("≥ 1 s", "1 s")],
        svc_heading: "Services",
        svc_filter_hint: "Filtrer les unités…",
        svc_running_only: "En cours uniquement",
        svc_desc: "Unités systemd du système et de votre session.",
        svc_col_unit: "Unité",
        svc_col_scope: "Portée",
        svc_col_active: "Active",
        svc_col_sub: "État",
        svc_col_desc: "Description",
        svc_col_actions: "Actions",
        svc_start: "Démarrer",
        svc_stop: "Arrêter",
        svc_restart: "Redémarrer",
        svc_scope_system: "Système",
        svc_scope_user: "Utilisateur",
        svc_units_shown: "{n} unités affichées",
        svc_reload: "Actualiser",
        svc_ctx_copy_unit: "Copier le nom de l'unité",
        svc_ctx_properties: "Propriétés",
        svc_prop_title: "Propriétés du service",
        svc_prop_unit: "Unité",
        svc_prop_scope: "Portée",
        svc_prop_desc: "Description",
        svc_prop_load: "État de chargement",
        svc_prop_active: "État d'activité",
        svc_prop_sub: "Sous-état",
        svc_prop_unit_file_state: "État du fichier d'unité",
        svc_prop_main_pid: "PID principal",
        svc_prop_user: "Utilisateur",
        svc_prop_mem: "Mémoire",
        svc_prop_tasks: "Tâches",
        svc_prop_unit_file: "Fichier d'unité",
        svc_prop_dropins: "Compléments",
        svc_prop_workdir: "Répertoire de travail",
        svc_prop_execstart: "ExecStart",
        set_heading: "Paramètres",
        set_desc: "Réglez la façon dont rproc échantillonne et affiche les données du système.",
        set_refresh_title: "Fréquence d'actualisation",
        set_refresh_desc: "Fréquence à laquelle le système est interrogé. Un intervalle plus court est plus réactif mais consomme plus de processeur.",
        set_custom: "Personnalisé",
        set_currently: "Échantillonnage actuel toutes les",
        set_bg_title: "Historique en arrière-plan",
        set_bg_desc: "Exécute un petit processus en arrière-plan qui enregistre les 60 dernières secondes d'activité du processeur, de la mémoire, des disques, du réseau et du GPU.",
        set_bg_checkbox: "Continuer l'enregistrement en arrière-plan",
        set_bg_running: "L'enregistreur en arrière-plan est actif",
        set_bg_off: "L'enregistreur en arrière-plan est arrêté",
        set_notif_title: "Notifications",
        set_notif_desc: "Recevez une notification lorsque l'utilisation du processeur ou de la mémoire dépasse un seuil. Un seuil de 0 % désactive les alertes de cette mesure.",
        set_notif_cpu: "Seuil processeur",
        set_notif_ram: "Seuil mémoire",
        set_notif_cooldown: "Délai entre alertes",
        set_appearance_title: "Apparence",
        set_appearance_desc: "Choisissez le thème sombre, clair, ou celui de votre système.",
        set_theme_system: "Système",
        set_theme_dark: "Sombre",
        set_theme_light: "Clair",
        set_about_title: "À propos",
        set_version: "Version",
        set_build: "Compilation",
        set_build_debug: "Débogage",
        set_build_release: "Optimisée",
        notif_cpu_body: "Utilisation du processeur à {:.0} % (seuil : {} %)",
        notif_ram_body: "Utilisation de la mémoire à {:.0} % (seuil : {} %)",
        open_in_fm: "Ouvrir dans le gestionnaire de fichiers",
        gpu_unavailable_detail_intel: "L'utilisation du GPU Intel nécessite l'accès au PMU perf.",
        gpu_unavailable_detail_other: "Le pilote ne fournit pas l'utilisation.",
        gpu_unavailable_fix_label: "Pour l'activer, exécutez l'une des commandes :",
        gpu_unavailable_fix_cap: "sudo setcap cap_perfmon=ep <binaire>",
        gpu_unavailable_fix_sysctl: "sudo sysctl kernel.perf_event_paranoid=2",
        perf_partitions: "Partitions",
        perf_partition: "Partition",
        scope_user_autostart: "Démarrage auto. utilisateur",
        scope_system_autostart: "Démarrage auto. système",
        scope_systemd_system: "systemd (système)",
        scope_systemd_user: "systemd (utilisateur)",
        startup_ctx_copy_name: "Copier le nom",
        startup_ctx_open_desktop: "Ouvrir le fichier .desktop",
        startup_ctx_properties: "Propriétés",
        startup_prop_title: "Propriétés de l'entrée de démarrage",
        startup_prop_name: "Nom",
        startup_prop_source: "Source",
        startup_prop_description: "Description",
        startup_prop_boot_time: "Durée de démarrage",
        startup_prop_state: "État",
        startup_prop_state_protected: "Protégé",
        startup_prop_state_enabled: "Activé",
        startup_prop_state_disabled: "Désactivé",
        startup_prop_desktop_file: "Fichier .desktop",
        startup_prop_exec: "Commande",
        startup_prop_icon: "Icône",
    }
}

/// The French texts.
pub fn msg() -> (r: Messages)
    ensures
        r == bundle(),
{
    Messages {
        tab_processes: "Processus",
        tab_performance: "Performances",
        tab_startup: "Démarrage",
        tab_services: "Services",
        tab_settings: "Paramètres",
        proc_heading: "Processus",
        proc_end_task: "Terminer la tâche",
        proc_force_kill: "Forcer l'arrêt",
        proc_end_task_n: "Terminer la tâche ({n})",
        proc_force_kill_n: "Forcer l'arrêt ({n})",
        proc_filter_hint: "Filtrer par nom, PID ou utilisateur…",
        proc_view_tree: "Arborescence",
        proc_view_grouped: "Regroupé",
        proc_col_name: "Nom",
        proc_col_pid: "PID",
        proc_col_user: "Utilisateur",
        proc_col_cpu: "Processeur  {:.0}%",
        proc_col_mem: "Mémoire  {:.0}%",
        proc_col_disk: "Disque",
        proc_col_status: "État",
        proc_section_apps: "Applications",
        proc_section_bg: "Processus en arrière-plan",
        proc_count: "{total} processus",
        proc_sampling: "échantillonnage…",
        ctx_end_task: "Terminer la tâche",
        ctx_force_kill: "Forcer l'arrêt",
        ctx_suspend: "Suspendre",
        ctx_resume: "Reprendre",
        ctx_open_location: "Ouvrir l'emplacement du fichier",
        ctx_search_online: "Rechercher en ligne",
        ctx_copy_pid: "Copier le PID",
        ctx_copy_name: "Copier le nom",
        ctx_copy_cmd: "Copier la ligne de commande",
        ctx_properties: "Propriétés",
        ctx_end_all: "Tout terminer ({n})",
        ctx_force_kill_all: "Forcer l'arrêt de tout ({n})",
        ctx_suspend_all: "Tout suspendre",
        ctx_resume_all: "Tout reprendre",
        ctx_copy_all_pids: "Copier tous les PID",
        ctx_properties_main: "Propriétés (processus principal)",
        prop_title: "Propriétés : {name}",
        prop_reload: "Actualiser",
        prop_pid: "PID",
        prop_parent_pid: "PID parent",
        prop_user: "Utilisateur",
        prop_status: "État",
        prop_cpu: "Processeur",
        prop_mem_rss: "Mémoire (RSS)",
        prop_virt_mem: "Mémoire virtuelle",
        prop_threads: "Threads",
        prop_fds: "Fichiers ouverts",
        prop_running_for: "En cours depuis",
        prop_executable: "Exécutable",
        prop_working_dir: "Répertoire de travail",
        prop_config: "Configuration",
        prop_cmdline: "Ligne de commande",
        prop_dash: "—",
        status_running: "En cours",
        status_idle: "Inactif",
        status_waiting: "En attente",
        status_stopped: "Arrêté",
        status_zombie: "Zombie",
        perf_cpu: "Processeur",
        perf_memory: "Mémoire",
        perf_gpu: "GPU {i} ({vendor})",
        perf_disk: "Disque {name}",
        perf_show_details: "Afficher les détails",
        perf_hide_details: "Masquer les détails",
        perf_cpu_total_plot: "Utilisation totale du processeur",
        perf_current: "Actuel",
        perf_uptime: "Temps de fonctionnement",
        perf_per_core: "Par cœur",
        perf_core: "Cœur {n}",
        perf_ram_plot: "Utilisation de la mémoire",
        perf_used: "Utilisée",
        perf_available: "Disponible",
        perf_swap_total: "Swap total",
        perf_swap_used: "Swap utilisé",
        perf_swap_plot: "Utilisation du swap",
        perf_disk_plot: "Activité du disque",
        perf_read: "Lecture",
        perf_write: "Écriture",
        perf_total: "Total",
        perf_used_space: "Espace utilisé",
        perf_mount: "Point de montage",
        perf_net_plot: "Débit",
        perf_receive: "Réception",
        perf_send: "Envoi",
        perf_total_recv: "Total reçu",
        perf_total_sent: "Total envoyé",
        perf_gpu_plot: "Utilisation du GPU",
        perf_gpu_util: "Utilisation",
        perf_gpu_vram: "Mémoire vidéo",
        perf_gpu_temp: "Température",
        perf_gpu_power: "Consommation",
        perf_gpu_core_clock: "Fréquence du cœur",
        perf_gpu_mem_clock: "Fréquence de la mémoire",
        perf_gpu_unavailable: "N/D",
        perf_no_disk: "Aucun disque trouvé",
        perf_no_iface: "Aucune interface réseau trouvée",
        perf_no_gpu: "Aucun GPU trouvé",
        iface_wifi: "Wi-Fi",
        iface_mobile: "Haut débit mobile",
        iface_usb: "USB",
        iface_ethernet: "Ethernet",
        iface_network: "Réseau",
        startup_heading: "Applications au démarrage",
        startup_filter_hint: "Filtrer les applications au démarrage…",
        startup_desc: "Programmes et services lancés à l'ouverture de session.",
        startup_min_boot: "Durée de démarrage minimale",
        startup_section_normal: "Applications au démarrage",
        startup_section_protected: "Protégés",
        startup_protected_desc: "Nécessaires au système ; ils ne peuvent pas être désactivés ici.",
        startup_enabled: "Activé",
        startup_disabled: "Désactivé",
        startup_protected_label: "Protégé",
        startup_boot_presets: &[("Tous", "0 ms"), ("≥ 100 ms", "100 ms"), ("≥ 500 ms", "500 ms"), ("≥ 1 s", "1 s")],
        svc_heading: "Services",
        svc_filter_hint: "Filtrer les unités…",
        svc_running_only: "En cours uniquement",
        svc_desc: "Unités systemd du système et de votre session.",
        svc_col_unit: "Unité",
        svc_col_scope: "Portée",
        svc_col_active: "Active",
        svc_col_sub: "État",
        svc_col_desc: "Description",
        svc_col_actions: "Actions",
        svc_start: "Démarrer",
        svc_stop: "Arrêter",
        svc_restart: "Redémarrer",
        svc_scope_system: "Système",
        svc_scope_user: "Utilisateur",
        svc_units_shown: "{n} unités affichées",
        svc_reload: "Actualiser",
        svc_ctx_copy_unit: "Copier le nom de l'unité",
        svc_ctx_properties: "Propriétés",
        svc_prop_title: "Propriétés du service",
        svc_prop_unit: "Unité",
        svc_prop_scope: "Portée",
        svc_prop_desc: "Description",
        svc_prop_load: "État de chargement",
        svc_prop_active: "État d'activité",
        svc_prop_sub: "Sous-état",
        svc_prop_unit_file_state: "État du fichier d'unité",
        svc_prop_main_pid: "PID principal",
        svc_prop_user: "Utilisateur",
        svc_prop_mem: "Mémoire",
        svc_prop_tasks: "Tâches",
        svc_prop_unit_file: "Fichier d'unité",
        svc_prop_dropins: "Compléments",
        svc_prop_workdir: "Répertoire de travail",
        svc_prop_execstart: "ExecStart",
        set_heading: "Paramètres",
        set_desc: "Réglez la façon dont rproc échantillonne et affiche les données du système.",
        set_refresh_title: "Fréquence d'actualisation",
        set_refresh_desc: "Fréquence à laquelle le système est interrogé. Un intervalle plus court est plus réactif mais consomme plus de processeur.",
        set_custom: "Personnalisé",
        set_currently: "Échantillonnage actuel toutes les",
        set_bg_title: "Historique en arrière-plan",
        set_bg_desc: "Exécute un petit processus en arrière-plan qui enregistre les 60 dernières secondes d'activité du processeur, de la mémoire, des disques, du réseau et du GPU.",
        set_bg_checkbox: "Continuer l'enregistrement en arrière-plan",
        set_bg_running: "L'enregistreur en arrière-plan est actif",
        set_bg_off: "L'enregistreur en arrière-plan est arrêté",
        set_notif_title: "Notifications",
        set_notif_desc: "Recevez une notification lorsque l'utilisation du processeur ou de la mémoire dépasse un seuil. Un seuil de 0 % désactive les alertes de cette mesure.",
        set_notif_cpu: "Seuil processeur",
        set_notif_ram: "Seuil mémoire",
        set_notif_cooldown: "Délai entre alertes",
        set_appearance_title: "Apparence",
        set_appearance_desc: "Choisissez le thème sombre, clair, ou celui de votre système.",
        set_theme_system: "Système",
        set_theme_dark: "Sombre",
        set_theme_light: "Clair",
        set_about_title: "À propos",
        set_version: "Version",
        set_build: "Compilation",
        set_build_debug: "Débogage",
        set_build_release: "Optimisée",
        notif_cpu_body: "Utilisation du processeur à {:.0} % (seuil : {} %)",
        notif_ram_body: "Utilisation de la mémoire à {:.0} % (seuil : {} %)",
        open_in_fm: "Ouvrir dans le gestionnaire de fichiers",
        gpu_unavailable_detail_intel: "L'utilisation du GPU Intel nécessite l'accès au PMU perf.",
        gpu_unavailable_detail_other: "Le pilote ne fournit pas l'utilisation.",
        gpu_unavailable_fix_label: "Pour l'activer, exécutez l'une des commandes :",
        gpu_unavailable_fix_cap: "sudo setcap cap_perfmon=ep <binaire>",
        gpu_unavailable_fix_sysctl: "sudo sysctl kernel.perf_event_paranoid=2",
        perf_partitions: "Partitions",
        perf_partition: "Partition",
        scope_user_autostart: "Démarrage auto. utilisateur",
        scope_system_autostart: "Démarrage auto. système",
        scope_systemd_system: "systemd (système)",
        scope_systemd_user: "systemd (utilisateur)",
        startup_ctx_copy_name: "Copier le nom",
        startup_ctx_open_desktop: "Ouvrir le fichier .desktop",
        startup_ctx_properties: "Propriétés",
        startup_prop_title: "Propriétés de l'entrée de démarrage",
        startup_prop_name: "Nom",
        startup_prop_source: "Source",
        startup_prop_description: "Description",
        startup_prop_boot_time: "Durée de démarrage",
        startup_prop_state: "État",
        startup_prop_state_protected: "Protégé",
        startup_prop_state_enabled: "Activé",
        startup_prop_state_disabled: "Désactivé",
        startup_prop_desktop_file: "Fichier .desktop",
        startup_prop_exec: "Commande",
        startup_prop_icon: "Icône",
    }
}

} // verus!
