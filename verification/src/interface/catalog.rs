//! The interface texts, one JSON object per language.
use vstd::prelude::*;

verus! {

/// The English texts.
pub const ENGLISH_JSON: &'static str = "{
 \"app_subtitle\": \"YouTube Music Player\",
 \"confirm_exit\": \"A download is in progress. Exit anyway? (y/n)\",
 \"confirm_exit_title\": \"Confirm exit\",
 \"download_title\": \"Download format\",
 \"downloading\": \"Downloading: {}\",
 \"err_download\": \"Download error: {}\",
 \"err_download_failed\": \"Download failed: {}\",
 \"err_generic\": \"Error: {}\",
 \"err_playback\": \"Playback error: {}\",
 \"err_search\": \"Search error: {}\",
 \"fmt_aac\": \"M4A (AAC)\",
 \"fmt_flac\": \"FLAC\",
 \"fmt_opus\": \"Opus\",
 \"fmt_wav\": \"WAV\",
 \"help_block_title\": \"Help\",
 \"help_close\": \"Press h, q or Esc to close\",
 \"help_general\": \"General\",
 \"help_general_ctrlq\": \"Ctrl+Q  Quit\",
 \"help_general_esc\": \"Esc     Back\",
 \"help_general_q\": \"q       Quit\",
 \"help_general_question\": \"h       Toggle help\",
 \"help_nav\": \"Navigation\",
 \"help_nav_slash\": \"/       Search\",
 \"help_nav_tab\": \"Tab     Next panel\",
 \"help_nav_updown\": \"j/k     Move down/up\",
 \"help_playback\": \"Playback\",
 \"help_playback_enter\": \"Enter   Play\",
 \"help_playback_n\": \"n       Next song\",
 \"help_playback_p\": \"p       Previous song\",
 \"help_playback_s\": \"s       Stop\",
 \"help_playback_space\": \"Space   Play/Pause\",
 \"help_playback_v\": \"v       Audio/Video mode\",
 \"help_playback_vol\": \"+/-     Volume\",
 \"help_queue\": \"Queue\",
 \"help_queue_c\": \"c       Clear queue\",
 \"help_queue_d\": \"d       Download\",
 \"help_search\": \"Search\",
 \"help_search_a\": \"a       Add to queue\",
 \"help_search_slash\": \"/       New search\",
 \"help_title\": \"Help\",
 \"hint_general\": \"h: help  q: quit\",
 \"hint_queue\": \"Enter: play  Del: remove  c: clear\",
 \"hint_search_input\": \"Enter: search  Tab: results\",
 \"hint_search_results\": \"Enter: play  a: add  d: download\",
 \"no\": \"No\",
 \"no_track_loaded\": \"No track loaded\",
 \"notif_accent\": \"Accent color changed\",
 \"notif_added_to_queue\": \"Added to queue: {}\",
 \"notif_already_in_queue\": \"Already in queue: {}\",
 \"notif_already_playing\": \"Already playing\",
 \"notif_downloaded\": \"Downloaded: {}\",
 \"notif_manual_path\": \"Type the download path manually\",
 \"notif_mode\": \"Mode: {}\",
 \"notif_paused\": \"Paused\",
 \"notif_playing\": \"Playing\",
 \"notif_repeat_all\": \"Repeat: all\",
 \"notif_repeat_off\": \"Repeat: off\",
 \"notif_repeat_one\": \"Repeat: one\",
 \"notif_resumed\": \"Resumed\",
 \"notif_search_count\": \"{} results found\",
 \"notif_theme\": \"Theme: {}\",
 \"notif_volume\": \"Volume: {:.0}%\",
 \"now_playing_title\": \"Now Playing\",
 \"player_loading\": \"Loading\",
 \"player_no_track\": \"No track\",
 \"player_paused\": \"Paused\",
 \"player_playing\": \"Playing\",
 \"player_stopped\": \"Stopped\",
 \"queue\": \"Queue\",
 \"queue_empty\": \"The queue is empty\",
 \"queue_title\": \"Queue\",
 \"search_input\": \"Search\",
 \"search_results\": \"Results\",
 \"search_searching\": \"Searching...\",
 \"search_title\": \"Search\",
 \"settings_accent\": \"Accent color\",
 \"settings_audio_mode\": \"Playback mode\",
 \"settings_download_path\": \"Download path\",
 \"settings_hints\": \"Up/Down: select  Enter: change  +/-: adjust  Esc: back\",
 \"settings_language\": \"Language\",
 \"settings_options\": \"Options\",
 \"settings_repeat\": \"Repeat\",
 \"settings_search_limit\": \"Search limit\",
 \"settings_theme\": \"Theme\",
 \"settings_title\": \"Settings\",
 \"settings_volume\": \"Volume\",
 \"status_audio\": \"Audio\",
 \"status_idle\": \"Idle\",
 \"status_loading\": \"Loading\",
 \"status_paused\": \"Paused\",
 \"status_playing\": \"Playing\",
 \"status_repeat_all\": \"🔁 All\",
 \"status_repeat_none\": \"🔁 None\",
 \"status_repeat_one\": \"🔂 One\",
 \"status_stopped\": \"Stopped\",
 \"status_video\": \"Video\",
 \"upgrade_available\": \"A new version is available: {}\",
 \"upgrade_complete\": \"Update installed. Restart rgytui to use it.\",
 \"upgrade_downloading\": \"Downloading update...\",
 \"upgrade_failed\": \"Update failed\",
 \"upgrade_in_progress\": \"An update is in progress, please wait\",
 \"upgrade_popup\": \"Update\",
 \"upgrade_title\": \"Update available\",
 \"yes\": \"Yes\",
 \"pulse\": \"Pulse\",
 \"wave\": \"Wave\",
 \"bar\": \"Bar\",
 \"skeleton\": \"Skeleton\",
 \"bounce\": \"Bounce\"
}";

/// The Spanish texts.
pub const SPANISH_JSON: &'static str = "{
 \"app_subtitle\": \"Reproductor de Música YouTube\",
 \"confirm_exit\": \"Hay una descarga en curso. ¿Salir de todos modos? (y/n)\",
 \"confirm_exit_title\": \"Confirmar salida\",
 \"download_title\": \"Formato de descarga\",
 \"downloading\": \"Descargando: {}\",
 \"err_download\": \"Error de descarga: {}\",
 \"err_download_failed\": \"La descarga falló: {}\",
 \"err_generic\": \"Error: {}\",
 \"err_playback\": \"Error de reproducción: {}\",
 \"err_search\": \"Error de búsqueda: {}\",
 \"fmt_aac\": \"M4A (AAC)\",
 \"fmt_flac\": \"FLAC\",
 \"fmt_opus\": \"Opus\",
 \"fmt_wav\": \"WAV\",
 \"help_block_title\": \"Ayuda\",
 \"help_close\": \"Pulsa h, q o Esc para cerrar\",
 \"help_general\": \"General\",
 \"help_general_ctrlq\": \"Ctrl+Q  Salir\",
 \"help_general_esc\": \"Esc     Volver\",
 \"help_general_q\": \"q       Salir\",
 \"help_general_question\": \"h       Mostrar ayuda\",
 \"help_nav\": \"Navegación\",
 \"help_nav_slash\": \"/       Buscar\",
 \"help_nav_tab\": \"Tab     Siguiente panel\",
 \"help_nav_updown\": \"j/k     Bajar/subir\",
 \"help_playback\": \"Reproducción\",
 \"help_playback_enter\": \"Enter   Reproducir\",
 \"help_playback_n\": \"n       Siguiente canción\",
 \"help_playback_p\": \"p       Canción anterior\",
 \"help_playback_s\": \"s       Detener\",
 \"help_playback_space\": \"Espacio Reproducir/Pausa\",
 \"help_playback_v\": \"v       Modo audio/vídeo\",
 \"help_playback_vol\": \"+/-     Volumen\",
 \"help_queue\": \"Cola\",
 \"help_queue_c\": \"c       Vaciar cola\",
 \"help_queue_d\": \"d       Descargar\",
 \"help_search\": \"Búsqueda\",
 \"help_search_a\": \"a       Añadir a la cola\",
 \"help_search_slash\": \"/       Nueva búsqueda\",
 \"help_title\": \"Ayuda\",
 \"hint_general\": \"h: ayuda  q: salir\",
 \"hint_queue\": \"Enter: reproducir  Supr: quitar  c: vaciar\",
 \"hint_search_input\": \"Enter: buscar  Tab: resultados\",
 \"hint_search_results\": \"Enter: reproducir  a: añadir  d: descargar\",
 \"no\": \"No\",
 \"no_track_loaded\": \"Ninguna pista cargada\",
 \"notif_accent\": \"Color de acento cambiado\",
 \"notif_added_to_queue\": \"Añadido a la cola: {}\",
 \"notif_already_in_queue\": \"Ya está en la cola: {}\",
 \"notif_already_playing\": \"Ya se está reproduciendo\",
 \"notif_downloaded\": \"Descargado: {}\",
 \"notif_manual_path\": \"Escribe la ruta de descarga manualmente\",
 \"notif_mode\": \"Modo: {}\",
 \"notif_paused\": \"En pausa\",
 \"notif_playing\": \"Reproduciendo\",
 \"notif_repeat_all\": \"Repetir: todo\",
 \"notif_repeat_off\": \"Repetir: desactivado\",
 \"notif_repeat_one\": \"Repetir: una\",
 \"notif_resumed\": \"Reanudado\",
 \"notif_search_count\": \"{} resultados encontrados\",
 \"notif_theme\": \"Tema: {}\",
 \"notif_volume\": \"Volumen: {:.0}%\",
 \"now_playing_title\": \"Reproduciendo ahora\",
 \"player_loading\": \"Cargando\",
 \"player_no_track\": \"Sin pista\",
 \"player_paused\": \"En pausa\",
 \"player_playing\": \"Reproduciendo\",
 \"player_stopped\": \"Detenido\",
 \"queue\": \"Cola\",
 \"queue_empty\": \"La cola está vacía\",
 \"queue_title\": \"Cola\",
 \"search_input\": \"Buscar\",
 \"search_results\": \"Resultados\",
 \"search_searching\": \"Buscando...\",
 \"search_title\": \"Buscar\",
 \"settings_accent\": \"Color de acento\",
 \"settings_audio_mode\": \"Modo de reproducción\",
 \"settings_download_path\": \"Ruta de descarga\",
 \"settings_hints\": \"Arriba/Abajo: elegir  Enter: cambiar  +/-: ajustar  Esc: volver\",
 \"settings_language\": \"Idioma\",
 \"settings_options\": \"Opciones\",
 \"settings_repeat\": \"Repetir\",
 \"settings_search_limit\": \"Límite de búsqueda\",
 \"settings_theme\": \"Tema\",
 \"settings_title\": \"Ajustes\",
 \"settings_volume\": \"Volumen\",
 \"status_audio\": \"Audio\",
 \"status_idle\": \"Inactivo\",
 \"status_loading\": \"Cargando\",
 \"status_paused\": \"En pausa\",
 \"status_playing\": \"Reproduciendo\",
 \"status_repeat_all\": \"🔁 Todo\",
 \"status_repeat_none\": \"🔁 Ninguno\",
 \"status_repeat_one\": \"🔂 Una\",
 \"status_stopped\": \"Detenido\",
 \"status_video\": \"Vídeo\",
 \"upgrade_available\": \"Hay una nueva versión disponible: {}\",
 \"upgrade_complete\": \"Actualización instalada. Reinicia rgytui para usarla.\",
 \"upgrade_downloading\": \"Descargando actualización...\",
 \"upgrade_failed\": \"La actualización falló\",
 \"upgrade_in_progress\": \"Hay una actualización en curso, espera\",
 \"upgrade_popup\": \"Actualizar\",
 \"upgrade_title\": \"Actualización disponible\",
 \"yes\": \"Sí\",
 \"pulse\": \"Pulso\",
 \"wave\": \"Onda\",
 \"bar\": \"Barra\",
 \"skeleton\": \"Esqueleto\",
 \"bounce\": \"Rebote\"
}";

} // verus!
