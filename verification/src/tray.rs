//! The system tray icon: its identity, its menu, and what its items do.
use vstd::prelude::*;
use crate::text::{chars_of, push_str, string_of, trim, trim_of, views};

verus! {

broadcast use vstd::string::group_string_axioms;

/// What a menu item does when it is activated.
#[derive(PartialEq, Eq, Structural, Clone, Copy, Debug)]
pub enum MenuAction {
    OpenConsole,
    RestartApp,
    StopAudio,
    ToggleMute,
    Quit,
}

/// An entry of the tray menu.
pub enum MenuEntry {
    /// A greyed-out line of text.
    Label(String),
    Separator,
    /// An item that can be activated.
    Item { label: String, action: MenuAction },
}

pub enum MenuEntryView {
    Label(Seq<char>),
    Separator,
    Item(Seq<char>, MenuAction),
}

impl View for MenuEntry {
    type V = MenuEntryView;

    open spec fn view(&self) -> MenuEntryView {
        match self {
            MenuEntry::Label(s) => MenuEntryView::Label(s@),
            MenuEntry::Separator => MenuEntryView::Separator,
            MenuEntry::Item { label, action } => MenuEntryView::Item(label@, *action),
        }
    }
}

pub open spec fn entry_views(m: Seq<MenuEntry>) -> Seq<MenuEntryView> {
    m.map_values(|e: MenuEntry| e@)
}

/// What the caller does when an item is activated.
pub enum TrayEffect {
    /// Print a line.
    Say(String),
    /// Open the console in a terminal window.
    OpenConsole,
    /// Set the microphone's volume to this `pactl` level.
    SetVolume(String),
    /// End the process.
    Exit,
}

pub enum TrayEffectView {
    Say(Seq<char>),
    OpenConsole,
    SetVolume(Seq<char>),
    Exit,
}

impl View for TrayEffect {
    type V = TrayEffectView;

    open spec fn view(&self) -> TrayEffectView {
        match self {
            TrayEffect::Say(s) => TrayEffectView::Say(s@),
            TrayEffect::OpenConsole => TrayEffectView::OpenConsole,
            TrayEffect::SetVolume(s) => TrayEffectView::SetVolume(s@),
            TrayEffect::Exit => TrayEffectView::Exit,
        }
    }
}

pub open spec fn effect_views(m: Seq<TrayEffect>) -> Seq<TrayEffectView> {
    m.map_values(|e: TrayEffect| e@)
}

/// The label of the mute item: it offers the opposite of the current state.
pub open spec fn mute_label(muted: bool) -> Seq<char> {
    if muted {
        "Unmute Mic"@
    } else {
        "Mute Mic"@
    }
}

/// The volume that goes with a mute state.
pub open spec fn mute_volume(muted: bool) -> Seq<char> {
    if muted {
        "0%"@
    } else {
        "100%"@
    }
}

/// The menu for a device name and mute state.
pub open spec fn menu_of(device_name: Seq<char>, muted: bool) -> Seq<MenuEntryView> {
    seq![
        MenuEntryView::Label(device_name),
        MenuEntryView::Separator,
        MenuEntryView::Item("Open Console (TUI)"@, MenuAction::OpenConsole),
        MenuEntryView::Separator,
        MenuEntryView::Item("Restart App"@, MenuAction::RestartApp),
        MenuEntryView::Item("Stop Audio"@, MenuAction::StopAudio),
        MenuEntryView::Item(mute_label(muted), MenuAction::ToggleMute),
        MenuEntryView::Separator,
        MenuEntryView::Item("Quit"@, MenuAction::Quit),
    ]
}

fn push_entry(m: &mut Vec<MenuEntry>, e: MenuEntry)
    ensures
        entry_views(final(m)@) == entry_views(old(m)@).push(e@),
{
    let ghost before = entry_views(m@);
    let ghost v = e@;
    m.push(e);
    assert(entry_views(m@) =~= before.push(v));
}

fn item(label: &str, action: MenuAction) -> (e: MenuEntry)
    ensures
        e@ == MenuEntryView::Item(label@, action),
{
    MenuEntry::Item { label: label.to_string(), action }
}

fn effect1(e: TrayEffect) -> (out: Vec<TrayEffect>)
    ensures
        effect_views(out@) == seq![e@],
{
    let ghost v = e@;
    let mut out: Vec<TrayEffect> = Vec::new();
    out.push(e);
    assert(effect_views(out@) =~= seq![v]);
    out
}

/// The tray icon's state.
pub struct AudioSourceTray {
    pub muted: bool,
    /// The phone's model, or a note that none is connected.
    pub device_name: String,
}

impl AudioSourceTray {
    /// The icon as it starts: not muted, no device.
    pub fn new() -> (t: AudioSourceTray)
        ensures
            !t.muted,
            t.device_name@ == "No device connected"@,
    {
        AudioSourceTray { muted: false, device_name: "No device connected".to_string() }
    }

    pub fn id(&self) -> (s: String)
        ensures
            s@ == "audiosource"@,
    {
        "audiosource".to_string()
    }

    pub fn icon_name(&self) -> (s: String)
        ensures
            s@ == "audio-input-microphone"@,
    {
        "audio-input-microphone".to_string()
    }

    pub fn title(&self) -> (s: String)
        ensures
            s@ == "AudioSource"@,
    {
        "AudioSource".to_string()
    }

    /// The menu: the device name, the console, restart, stop, mute and quit.
    pub fn menu(&self) -> (m: Vec<MenuEntry>)
        ensures
            entry_views(m@) == menu_of(self.device_name@, self.muted),
    {
        let mut m: Vec<MenuEntry> = Vec::new();
        push_entry(&mut m, MenuEntry::Label(self.device_name.clone()));
        push_entry(&mut m, MenuEntry::Separator);
        push_entry(&mut m, item("Open Console (TUI)", MenuAction::OpenConsole));
        push_entry(&mut m, MenuEntry::Separator);
        push_entry(&mut m, item("Restart App", MenuAction::RestartApp));
        push_entry(&mut m, item("Stop Audio", MenuAction::StopAudio));
        if self.muted {
            push_entry(&mut m, item("Unmute Mic", MenuAction::ToggleMute));
        } else {
            push_entry(&mut m, item("Mute Mic", MenuAction::ToggleMute));
        }
        push_entry(&mut m, MenuEntry::Separator);
        push_entry(&mut m, item("Quit", MenuAction::Quit));
        assert(entry_views(m@) =~= menu_of(self.device_name@, self.muted));
        m
    }

    /// Flips the mute state and gives the volume that goes with the new state.
    pub fn toggle_mute(&mut self) -> (level: String)
        ensures
            final(self).muted == !old(self).muted,
            final(self).device_name == old(self).device_name,
            level@ == mute_volume(final(self).muted),
    {
        self.muted = !self.muted;
        if self.muted {
            "0%".to_string()
        } else {
            "100%".to_string()
        }
    }

    /// Activates a menu item.
    pub fn activate(&mut self, action: MenuAction) -> (effects: Vec<TrayEffect>)
        ensures
            action != MenuAction::ToggleMute ==> *final(self) == *old(self),
            action == MenuAction::ToggleMute ==> final(self).muted == !old(self).muted
                && final(self).device_name == old(self).device_name,
            effect_views(effects@) == match action {
                MenuAction::OpenConsole => seq![
                    TrayEffectView::Say("Opening TUI..."@),
                    TrayEffectView::OpenConsole,
                ],
                MenuAction::RestartApp => seq![TrayEffectView::Say("Restarting app..."@)],
                MenuAction::StopAudio => seq![TrayEffectView::Say("Stopping audio..."@)],
                MenuAction::ToggleMute => seq![
                    TrayEffectView::SetVolume(mute_volume(!old(self).muted)),
                ],
                MenuAction::Quit => seq![TrayEffectView::Exit],
            },
    {
        match action {
            MenuAction::OpenConsole => {
                let mut out = effect1(TrayEffect::Say("Opening TUI...".to_string()));
                let ghost before = effect_views(out@);
                out.push(TrayEffect::OpenConsole);
                assert(effect_views(out@) =~= before.push(TrayEffectView::OpenConsole));
                out
            },
            MenuAction::RestartApp => effect1(TrayEffect::Say("Restarting app...".to_string())),
            MenuAction::StopAudio => effect1(TrayEffect::Say("Stopping audio...".to_string())),
            MenuAction::ToggleMute => {
                let level = self.toggle_mute();
                effect1(TrayEffect::SetVolume(level))
            },
            MenuAction::Quit => effect1(TrayEffect::Exit),
        }
    }

    /// Takes the output of `adb shell getprop ro.product.model`: a non-empty
    /// trimmed output becomes the device name, anything else leaves it.
    pub fn update_device_name(&mut self, output: &str)
        ensures
            final(self).muted == old(self).muted,
            trim(output@).len() > 0 ==> final(self).device_name@ == trim(output@),
            trim(output@).len() == 0 ==> final(self).device_name == old(self).device_name,
    {
        let cs = chars_of(output);
        let t = trim_of(&cs);
        if t.len() > 0 {
            self.device_name = string_of(&t);
        }
    }
}

/// The mute item always offers the opposite of the current state, and the
/// volume set by a toggle is 0 % exactly when the microphone ends up muted.
pub proof fn lemma_mute_consistent(muted: bool)
    ensures
        (mute_label(muted) == "Unmute Mic"@) == muted,
        (mute_volume(muted) == "0%"@) == muted,
{
    reveal_strlit("Unmute Mic");
    reveal_strlit("Mute Mic");
    reveal_strlit("0%");
    reveal_strlit("100%");
    assert("Unmute Mic"@.len() != "Mute Mic"@.len());
    assert("0%"@.len() != "100%"@.len());
}

/// The terminal emulators tried, in order, with the flag that runs a command.
pub open spec fn terminals_spec() -> Seq<(Seq<char>, Seq<char>)> {
    seq![
        ("foot"@, "-e"@),
        ("ghostty"@, "-e"@),
        ("kitty"@, "--"@),
        ("x-terminal-emulator"@, "-e"@),
        ("gnome-terminal"@, "--"@),
        ("konsole"@, "-e"@),
        ("xfce4-terminal"@, "-x"@),
        ("alacritty"@, "-e"@),
    ]
}

pub open spec fn pair_views(v: Seq<(String, String)>) -> Seq<(Seq<char>, Seq<char>)> {
    v.map_values(|p: (String, String)| (p.0@, p.1@))
}

fn push_pair(v: &mut Vec<(String, String)>, a: &str, b: &str)
    ensures
        pair_views(final(v)@) == pair_views(old(v)@).push((a@, b@)),
{
    let ghost before = pair_views(v@);
    v.push((a.to_string(), b.to_string()));
    assert(pair_views(v@) =~= before.push((a@, b@)));
}

/// The terminal emulators to try for the console, in order.
pub fn terminals() -> (out: Vec<(String, String)>)
    ensures
        pair_views(out@) == terminals_spec(),
{
    let mut out: Vec<(String, String)> = Vec::new();
    push_pair(&mut out, "foot", "-e");
    push_pair(&mut out, "ghostty", "-e");
    push_pair(&mut out, "kitty", "--");
    push_pair(&mut out, "x-terminal-emulator", "-e");
    push_pair(&mut out, "gnome-terminal", "--");
    push_pair(&mut out, "konsole", "-e");
    push_pair(&mut out, "xfce4-terminal", "-x");
    push_pair(&mut out, "alacritty", "-e");
    assert(pair_views(out@) =~= terminals_spec());
    out
}

/// The arguments of a terminal emulator that runs the console of `exe`.
pub fn terminal_args(flag: &str, exe: &str) -> (out: Vec<String>)
    ensures
        views(out@) == seq![flag@, exe@, "tui"@],
{
    let mut out: Vec<String> = Vec::new();
    push_str(&mut out, flag);
    push_str(&mut out, exe);
    push_str(&mut out, "tui");
    assert(views(out@) =~= seq![flag@, exe@, "tui"@]);
    out
}

/// How often the tray asks `adb` for the phone's model, in seconds.
pub const DEVICE_REFRESH_SECS: u64 = 10;

/// The program the terminal runs: this program's path when it is known,
/// else `audiosource`.
pub fn console_exe(current: Option<String>) -> (out: String)
    ensures
        current matches Some(c) ==> out@ == c@,
        current is None ==> out@ == "audiosource"@,
{
    match current {
        Some(c) => c,
        None => "audiosource".to_string(),
    }
}

/// What opening the console does next.
pub enum LaunchStep {
    /// Start `program` with `args`; then `launch_step` with `tried` one more
    /// and whether it started.
    Spawn { program: String, args: Vec<String> },
    /// A terminal started: nothing more is tried.
    Started,
    /// No terminal could be started: print this line on standard error.
    GiveUp(String),
}

/// Opening the console in a terminal, after `tried` terminals of
/// `terminals_spec` were tried (`started`: whether the last one started):
/// once one has started nothing more is tried; otherwise the next one is
/// started as `<terminal> <flag> <exe> tui`; after the last, give up.
pub fn launch_step(exe: &str, tried: usize, started: bool) -> (out: LaunchStep)
    requires
        tried <= terminals_spec().len(),
    ensures
        started ==> out is Started,
        !started && tried < terminals_spec().len() ==> (out matches LaunchStep::Spawn {
            program,
            args,
        } && program@ == terminals_spec()[tried as int].0 && views(args@) == seq![
            terminals_spec()[tried as int].1,
            exe@,
            "tui"@,
        ]),
        !started && tried == terminals_spec().len() ==> (out matches LaunchStep::GiveUp(l) && l@
            == "Could not find a suitable terminal emulator to open TUI."@),
{
    if started {
        return LaunchStep::Started;
    }
    let ts = terminals();
    if tried < ts.len() {
        let (program, flag) = &ts[tried];
        assert(pair_views(ts@)[tried as int] == (program@, flag@));
        LaunchStep::Spawn {
            program: program.as_str().to_string(),
            args: terminal_args(flag.as_str(), exe),
        }
    } else {
        LaunchStep::GiveUp("Could not find a suitable terminal emulator to open TUI.".to_string())
    }
}

} // verus!
