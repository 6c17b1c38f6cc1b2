//! The messages of the interface, in English and in German.
use vstd::prelude::*;

verus! {

/// The English messages.
pub const EN: &'static str = "app-name = LightSync
app-tagline = Lights that follow your screen
nav-sync = Sync
nav-setup = Setup
nav-profiles = Profiles
nav-settings = Settings
nav-diagnostics = Diagnostics
dashboard-title = Synchronization
dashboard-subtitle = Match your lights to what is on screen.
bridge-title = Bridge
area-title = Entertainment area
area-none = No active area
sync-controls-title = Controls
mode-title = Mode
mode-video = Video
mode-game = Game
mode-music = Music
mode-scene = Scene
mode-video-unavailable = Video (unavailable)
mode-game-unavailable = Game (unavailable)
mode-music-unavailable = Music (unavailable)
mode-scene-unavailable = Scene (unavailable)
audio-unavailable = Audio-reactive modes are not available yet.
brightness-title = Brightness
intensity-title = Intensity
intensity-subtle = Subtle
intensity-moderate = Moderate
intensity-high = High
intensity-extreme = Extreme
action-start = Start
action-stop = Stop
action-working = Working
privacy-note = Screen contents never leave this computer.
setup-title = Setup
setup-subtitle = Connect a Hue bridge and choose an area.
discover-title = Find a bridge
discover-description = Search the local network for Hue bridges.
discover-empty = No bridges found yet.
action-discover = Discover
action-discover-unavailable = Discovery unavailable
bridge-unnamed = Unnamed bridge
action-pair = Pair
action-pair-context = Pair { $name }
pair-title = Pair the bridge
pair-description = Press the link button on the bridge, then continue.
action-complete-pairing = Complete pairing
areas-title = Entertainment areas
areas-description = Choose the area that follows the screen.
areas-empty = No areas loaded.
action-refresh = Refresh
action-select = Select
action-select-context = Select { $name }
selected = Selected
profiles-title = Profiles
profiles-subtitle = Keep settings for different occasions.
profiles-empty = No profiles yet.
profile-new-title = New profile
profile-name = Profile name
action-create-profile = Create profile
active = Active
action-activate = Activate
action-activate-context = Activate { $name }
action-delete = Delete
action-delete-context = Delete { $name }
action-cancel = Cancel
delete-profile-title = Delete profile?
delete-profile-body = { $name } will be removed permanently.
settings-title = Settings
settings-subtitle = Capture, behavior and language.
capture-title = Screen capture
capture-portal = Desktop portal
capture-grim = grim
capture-unavailable = No capture backend is available.
capture-portal-description = The portal asks which display to share.
capture-grim-description = grim takes repeated screenshots and needs more power.
behavior-title = Behavior
restore-title = Restore lights
restore-description = Return lights to their earlier state after stopping.
autostart-title = Start automatically
autostart-description = Begin synchronizing when the service starts.
language-title = Language
language-system = System language
language-english = English
language-german = German
about-title = About
action-about = About LightSync
about-comments = Screen-synchronized Hue lighting for Omarchy.
about-developer = LightSync contributors
diagnostics-title = Diagnostics
diagnostics-subtitle = The current state of each component.
service-title = Service
capture-state-title = Capture
sync-state-title = Synchronization
fps-title = Frames per second
fps-unavailable = Not available
state-reconnecting = Reconnecting
state-unknown = Unknown
state-starting = Starting
state-ready = Ready
state-stopping = Stopping
state-failed = Failed
state-unconfigured = Not configured
state-disconnected = Disconnected
state-discovering = Discovering
state-pairing = Pairing
state-connecting = Connecting
state-connected = Connected
state-idle = Idle
state-requesting-permission = Waiting for permission
state-capturing = Capturing
state-stopped = Stopped
state-running = Running
error-daemon-unavailable = The LightSync service is not reachable.
error-bridge-unavailable = The Hue bridge is not reachable.
error-link-button = Press the link button on the bridge.
error-area = Choose an entertainment area.
error-display = The display was not found.
error-capture-permission = Screen capture was not permitted.
error-capture-unavailable = Screen capture is not available.
error-sync-unavailable = Synchronization is not available.
error-generic = Something went wrong.
";

/// The German messages.
pub const DE: &'static str = "app-name = LightSync
app-tagline = Lichter, die dem Bildschirm folgen
nav-sync = Sync
nav-setup = Einrichtung
nav-profiles = Profile
nav-settings = Einstellungen
nav-diagnostics = Diagnose
dashboard-title = Synchronisierung
dashboard-subtitle = Gleiche deine Lichter an den Bildschirm an.
bridge-title = Bridge
area-title = Entertainment-Bereich
area-none = Kein aktiver Bereich
sync-controls-title = Steuerung
mode-title = Modus
mode-video = Video
mode-game = Spiel
mode-music = Musik
mode-scene = Szene
mode-video-unavailable = Video (nicht verf\u{fc}gbar)
mode-game-unavailable = Spiel (nicht verf\u{fc}gbar)
mode-music-unavailable = Musik (nicht verf\u{fc}gbar)
mode-scene-unavailable = Szene (nicht verf\u{fc}gbar)
audio-unavailable = Audioreaktive Modi sind noch nicht verf\u{fc}gbar.
brightness-title = Helligkeit
intensity-title = Intensit\u{e4}t
intensity-subtle = Dezent
intensity-moderate = Mittel
intensity-high = Hoch
intensity-extreme = Extrem
action-start = Starten
action-stop = Stoppen
action-working = In Arbeit
privacy-note = Bildschirminhalte verlassen diesen Computer nie.
setup-title = Einrichtung
setup-subtitle = Verbinde eine Hue Bridge und w\u{e4}hle einen Bereich.
discover-title = Bridge suchen
discover-description = Suche im lokalen Netzwerk nach Hue Bridges.
discover-empty = Noch keine Bridges gefunden.
action-discover = Suchen
action-discover-unavailable = Suche nicht verf\u{fc}gbar
bridge-unnamed = Unbenannte Bridge
action-pair = Koppeln
action-pair-context = { $name } koppeln
pair-title = Bridge koppeln
pair-description = Dr\u{fc}cke die Link-Taste der Bridge und fahre dann fort.
action-complete-pairing = Kopplung abschlie\u{df}en
areas-title = Entertainment-Bereiche
areas-description = W\u{e4}hle den Bereich, der dem Bildschirm folgt.
areas-empty = Keine Bereiche geladen.
action-refresh = Aktualisieren
action-select = Ausw\u{e4}hlen
action-select-context = { $name } ausw\u{e4}hlen
selected = Ausgew\u{e4}hlt
profiles-title = Profile
profiles-subtitle = Bewahre Einstellungen f\u{fc}r verschiedene Anl\u{e4}sse auf.
profiles-empty = Noch keine Profile.
profile-new-title = Neues Profil
profile-name = Profilname
action-create-profile = Profil anlegen
active = Aktiv
action-activate = Aktivieren
action-activate-context = { $name } aktivieren
action-delete = L\u{f6}schen
action-delete-context = { $name } l\u{f6}schen
action-cancel = Abbrechen
delete-profile-title = Profil l\u{f6}schen?
delete-profile-body = { $name } wird dauerhaft entfernt.
settings-title = Einstellungen
settings-subtitle = Aufnahme, Verhalten und Sprache.
capture-title = Bildschirmaufnahme
capture-portal = Desktop-Portal
capture-grim = grim
capture-unavailable = Keine Aufnahmemethode verf\u{fc}gbar.
capture-portal-description = Das Portal fragt, welcher Bildschirm geteilt wird.
capture-grim-description = grim erstellt wiederholt Bildschirmfotos und braucht mehr Leistung.
behavior-title = Verhalten
restore-title = Lichter wiederherstellen
restore-description = Lichter nach dem Stoppen in den vorherigen Zustand zur\u{fc}ckversetzen.
autostart-title = Automatisch starten
autostart-description = Mit dem Start des Dienstes synchronisieren.
language-title = Sprache
language-system = Systemsprache
language-english = Englisch
language-german = Deutsch
about-title = Info
action-about = \u{dc}ber LightSync
about-comments = Bildschirmsynchrone Hue-Beleuchtung f\u{fc}r Omarchy.
about-developer = LightSync-Mitwirkende
diagnostics-title = Diagnose
diagnostics-subtitle = Der aktuelle Zustand aller Komponenten.
service-title = Dienst
capture-state-title = Aufnahme
sync-state-title = Synchronisierung
fps-title = Bilder pro Sekunde
fps-unavailable = Nicht verf\u{fc}gbar
state-reconnecting = Verbindung wird wiederhergestellt
state-unknown = Unbekannt
state-starting = Startet
state-ready = Bereit
state-stopping = Stoppt
state-failed = Fehlgeschlagen
state-unconfigured = Nicht eingerichtet
state-disconnected = Getrennt
state-discovering = Sucht
state-pairing = Koppelt
state-connecting = Verbindet
state-connected = Verbunden
state-idle = Inaktiv
state-requesting-permission = Wartet auf Freigabe
state-capturing = Nimmt auf
state-stopped = Gestoppt
state-running = L\u{e4}uft
error-daemon-unavailable = Der LightSync-Dienst ist nicht erreichbar.
error-bridge-unavailable = Die Hue Bridge ist nicht erreichbar.
error-link-button = Dr\u{fc}cke die Link-Taste der Bridge.
error-area = W\u{e4}hle einen Entertainment-Bereich.
error-display = Der Bildschirm wurde nicht gefunden.
error-capture-permission = Die Bildschirmaufnahme wurde nicht erlaubt.
error-capture-unavailable = Die Bildschirmaufnahme ist nicht verf\u{fc}gbar.
error-sync-unavailable = Die Synchronisierung ist nicht verf\u{fc}gbar.
error-generic = Etwas ist schiefgelaufen.
";

} // verus!
