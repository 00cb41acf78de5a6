//! Player input on the client: which buttons are held, and how keys, mouse buttons
//! and focus changes drive the console, the mouse grab and the buttons.
//!
//! The process feeds events in and carries out the returned [`Effect`]s
//! (grabbing the mouse, showing the console, sending input to the server).

use vstd::prelude::*;
use vstd::string::*;

verus! {

/// The buttons of a player's input: whether each action is currently held.
#[derive(Debug, Clone, Copy, Default, PartialEq, Eq, Structural)]
pub struct Buttons {
    pub fire1: bool,
    pub fire2: bool,
    pub marker1: bool,
    pub marker2: bool,
    pub zoom: bool,
    pub forward: bool,
    pub backward: bool,
    pub left: bool,
    pub right: bool,
    pub up: bool,
    pub down: bool,
    pub prev_weapon: bool,
    pub next_weapon: bool,
    pub reload: bool,
    pub flag: bool,
    pub grenade: bool,
    pub kill: bool,
    pub map: bool,
    pub score: bool,
    pub chat: bool,
    pub pause: bool,
    pub screenshot: bool,
}

/// One of the actions in [`Buttons`].
#[derive(Debug, Clone, Copy, PartialEq, Eq, Structural)]
pub enum Button {
    Fire1,
    Fire2,
    Marker1,
    Marker2,
    Zoom,
    Forward,
    Backward,
    Left,
    Right,
    Up,
    Down,
    PrevWeapon,
    NextWeapon,
    Reload,
    Flag,
    Grenade,
    Kill,
    ShowMap,
    Score,
    Chat,
    Pause,
    Screenshot,
}

/// A physical key, as far as the client reacts to it.
#[derive(Debug, Clone, Copy, PartialEq, Eq, Structural)]
pub enum Key {
    Escape,
    Backquote,
    ShiftLeft,
    KeyW,
    KeyA,
    KeyS,
    KeyD,
    Space,
    KeyQ,
    KeyE,
    KeyR,
    KeyF,
    KeyG,
    KeyK,
    KeyM,
    Tab,
    Enter,
    Pause,
    F12,
    /// Any other key.
    Other,
}

/// A mouse button.
#[derive(Debug, Clone, Copy, PartialEq, Eq, Structural)]
pub enum MouseButton {
    Left,
    Right,
    Middle,
    Back,
    Forward,
    Other(u16),
}

/// The state in which every button is released.
pub open spec fn all_released() -> Buttons {
    Buttons {
        fire1: false,
        fire2: false,
        marker1: false,
        marker2: false,
        zoom: false,
        forward: false,
        backward: false,
        left: false,
        right: false,
        up: false,
        down: false,
        prev_weapon: false,
        next_weapon: false,
        reload: false,
        flag: false,
        grenade: false,
        kill: false,
        map: false,
        score: false,
        chat: false,
        pause: false,
        screenshot: false,
    }
}

/// The buttons `b` with `button` held or released.
pub open spec fn with_button(b: Buttons, button: Button, pressed: bool) -> Buttons {
    match button {
        Button::Fire1 => Buttons { fire1: pressed, ..b },
        Button::Fire2 => Buttons { fire2: pressed, ..b },
        Button::Marker1 => Buttons { marker1: pressed, ..b },
        Button::Marker2 => Buttons { marker2: pressed, ..b },
        Button::Zoom => Buttons { zoom: pressed, ..b },
        Button::Forward => Buttons { forward: pressed, ..b },
        Button::Backward => Buttons { backward: pressed, ..b },
        Button::Left => Buttons { left: pressed, ..b },
        Button::Right => Buttons { right: pressed, ..b },
        Button::Up => Buttons { up: pressed, ..b },
        Button::Down => Buttons { down: pressed, ..b },
        Button::PrevWeapon => Buttons { prev_weapon: pressed, ..b },
        Button::NextWeapon => Buttons { next_weapon: pressed, ..b },
        Button::Reload => Buttons { reload: pressed, ..b },
        Button::Flag => Buttons { flag: pressed, ..b },
        Button::Grenade => Buttons { grenade: pressed, ..b },
        Button::Kill => Buttons { kill: pressed, ..b },
        Button::ShowMap => Buttons { map: pressed, ..b },
        Button::Score => Buttons { score: pressed, ..b },
        Button::Chat => Buttons { chat: pressed, ..b },
        Button::Pause => Buttons { pause: pressed, ..b },
        Button::Screenshot => Buttons { screenshot: pressed, ..b },
    }
}

/// Each button's state with its name, in the order they are listed when printing input.
pub open spec fn named_buttons(b: Buttons) -> Seq<(bool, Seq<char>)> {
    seq![
        (b.fire1, "fire1"@),
        (b.fire2, "fire2"@),
        (b.marker1, "marker1"@),
        (b.marker2, "marker2"@),
        (b.zoom, "zoom"@),
        (b.forward, "forward"@),
        (b.backward, "backward"@),
        (b.left, "left"@),
        (b.right, "right"@),
        (b.up, "up"@),
        (b.down, "down"@),
        (b.prev_weapon, "prev_weapon"@),
        (b.next_weapon, "next_weapon"@),
        (b.reload, "reload"@),
        (b.flag, "flag"@),
        (b.grenade, "grenade"@),
        (b.kill, "kill"@),
        (b.map, "map"@),
        (b.score, "score"@),
        (b.chat, "chat"@),
        (b.pause, "pause"@),
        (b.screenshot, "screenshot"@),
    ]
}

/// The names of the held buttons, each followed by a space.
pub open spec fn pressed_text(flags: Seq<(bool, Seq<char>)>) -> Seq<char>
    decreases flags.len(),
{
    if flags.len() == 0 {
        Seq::empty()
    } else {
        pressed_text(flags.drop_last()) + if flags.last().0 {
            flags.last().1 + " "@
        } else {
            Seq::empty()
        }
    }
}

/// The button a key controls while playing, if any.
pub open spec fn key_button(key: Key) -> Option<Button> {
    match key {
        Key::KeyW => Some(Button::Forward),
        Key::KeyA => Some(Button::Left),
        Key::KeyS => Some(Button::Backward),
        Key::KeyD => Some(Button::Right),
        Key::Space => Some(Button::Up),
        Key::ShiftLeft => Some(Button::Down),
        Key::KeyQ => Some(Button::PrevWeapon),
        Key::KeyE => Some(Button::NextWeapon),
        Key::KeyR => Some(Button::Reload),
        Key::KeyF => Some(Button::Flag),
        Key::KeyG => Some(Button::Grenade),
        Key::KeyK => Some(Button::Kill),
        Key::KeyM => Some(Button::ShowMap),
        Key::Tab => Some(Button::Score),
        Key::Enter => Some(Button::Chat),
        Key::Pause => Some(Button::Pause),
        Key::F12 => Some(Button::Screenshot),
        _ => None,
    }
}

/// The button a mouse button controls, if any.
pub open spec fn mouse_button_button(mb: MouseButton) -> Option<Button> {
    match mb {
        MouseButton::Left => Some(Button::Fire1),
        MouseButton::Right => Some(Button::Fire2),
        MouseButton::Middle => Some(Button::Zoom),
        MouseButton::Back => Some(Button::Marker2),
        MouseButton::Forward => Some(Button::Marker1),
        MouseButton::Other(8) => Some(Button::Marker1),
        MouseButton::Other(9) => Some(Button::Marker2),
        MouseButton::Other(_) => None,
    }
}

impl Buttons {
    /// Release every button (e.g. when the console opens and stops receiving game input).
    pub fn release_all_keys(&mut self)
        ensures
            *final(self) == all_released(),
    {
        self.fire1 = false;
        self.fire2 = false;
        self.marker1 = false;
        self.marker2 = false;
        self.zoom = false;
        self.forward = false;
        self.backward = false;
        self.left = false;
        self.right = false;
        self.up = false;
        self.down = false;
        self.prev_weapon = false;
        self.next_weapon = false;
        self.reload = false;
        self.flag = false;
        self.grenade = false;
        self.kill = false;
        self.map = false;
        self.score = false;
        self.chat = false;
        self.pause = false;
        self.screenshot = false;
    }

    /// Hold or release one button.
    pub fn set(&mut self, button: Button, pressed: bool)
        ensures
            *final(self) == with_button(*old(self), button, pressed),
    {
        *self = Self::with_pressed(*self, button, pressed);
    }

    fn with_pressed(b: Buttons, button: Button, pressed: bool) -> (r: Buttons)
        ensures
            r == with_button(b, button, pressed),
    {
        match button {
            Button::Fire1 => Buttons { fire1: pressed, ..b },
            Button::Fire2 => Buttons { fire2: pressed, ..b },
            Button::Marker1 => Buttons { marker1: pressed, ..b },
            Button::Marker2 => Buttons { marker2: pressed, ..b },
            Button::Zoom => Buttons { zoom: pressed, ..b },
            Button::Forward => Buttons { forward: pressed, ..b },
            Button::Backward => Buttons { backward: pressed, ..b },
            Button::Left => Buttons { left: pressed, ..b },
            Button::Right => Buttons { right: pressed, ..b },
            Button::Up => Buttons { up: pressed, ..b },
            Button::Down => Buttons { down: pressed, ..b },
            Button::PrevWeapon => Buttons { prev_weapon: pressed, ..b },
            Button::NextWeapon => Buttons { next_weapon: pressed, ..b },
            Button::Reload => Buttons { reload: pressed, ..b },
            Button::Flag => Buttons { flag: pressed, ..b },
            Button::Grenade => Buttons { grenade: pressed, ..b },
            Button::Kill => Buttons { kill: pressed, ..b },
            Button::ShowMap => Buttons { map: pressed, ..b },
            Button::Score => Buttons { score: pressed, ..b },
            Button::Chat => Buttons { chat: pressed, ..b },
            Button::Pause => Buttons { pause: pressed, ..b },
            Button::Screenshot => Buttons { screenshot: pressed, ..b },
        }
    }

    /// The names of the held buttons, each followed by a space
    /// (printing only the pressed buttons keeps input readable).
    pub fn pressed_names(&self) -> (s: String)
        ensures
            s@ == pressed_text(named_buttons(*self)),
    {
        let items: Vec<(bool, &str)> = vec![
            (self.fire1, "fire1"),
            (self.fire2, "fire2"),
            (self.marker1, "marker1"),
            (self.marker2, "marker2"),
            (self.zoom, "zoom"),
            (self.forward, "forward"),
            (self.backward, "backward"),
            (self.left, "left"),
            (self.right, "right"),
            (self.up, "up"),
            (self.down, "down"),
            (self.prev_weapon, "prev_weapon"),
            (self.next_weapon, "next_weapon"),
            (self.reload, "reload"),
            (self.flag, "flag"),
            (self.grenade, "grenade"),
            (self.kill, "kill"),
            (self.map, "map"),
            (self.score, "score"),
            (self.chat, "chat"),
            (self.pause, "pause"),
            (self.screenshot, "screenshot"),
        ];
        let ghost flags = items@.map_values(|it: (bool, &str)| (it.0, it.1@));
        assert(flags =~= named_buttons(*self));
        let mut s = String::new();
        let n = items.len();
        let mut i: usize = 0;
        while i < n
            invariant
                i <= n,
                n == items@.len(),
                flags == items@.map_values(|it: (bool, &str)| (it.0, it.1@)),
                s@ == pressed_text(flags.take(i as int)),
            decreases n - i,
        {
            let (held, name) = items[i];
            if held {
                s = s.concat(name).concat(" ");
            }
            proof {
                assert(flags.take(i + 1).drop_last() =~= flags.take(i as int));
                assert(flags.take(i + 1).last() == (held, name@));
            }
            i = i + 1;
        }
        assert(flags.take(n as int) =~= flags);
        s
    }
}

/// The button a key controls while playing, if any.
pub fn button_for_key(key: Key) -> (b: Option<Button>)
    ensures
        b == key_button(key),
{
    match key {
        Key::KeyW => Some(Button::Forward),
        Key::KeyA => Some(Button::Left),
        Key::KeyS => Some(Button::Backward),
        Key::KeyD => Some(Button::Right),
        Key::Space => Some(Button::Up),
        Key::ShiftLeft => Some(Button::Down),
        Key::KeyQ => Some(Button::PrevWeapon),
        Key::KeyE => Some(Button::NextWeapon),
        Key::KeyR => Some(Button::Reload),
        Key::KeyF => Some(Button::Flag),
        Key::KeyG => Some(Button::Grenade),
        Key::KeyK => Some(Button::Kill),
        Key::KeyM => Some(Button::ShowMap),
        Key::Tab => Some(Button::Score),
        Key::Enter => Some(Button::Chat),
        Key::Pause => Some(Button::Pause),
        Key::F12 => Some(Button::Screenshot),
        _ => None,
    }
}

/// The button a mouse button controls, if any.
pub fn button_for_mouse(mb: MouseButton) -> (b: Option<Button>)
    ensures
        b == mouse_button_button(mb),
{
    match mb {
        MouseButton::Left => Some(Button::Fire1),
        MouseButton::Right => Some(Button::Fire2),
        MouseButton::Middle => Some(Button::Zoom),
        MouseButton::Back => Some(Button::Marker2),
        MouseButton::Forward => Some(Button::Marker1),
        MouseButton::Other(n) => if n == 8 {
            Some(Button::Marker1)
        } else if n == 9 {
            Some(Button::Marker2)
        } else {
            None
        },
    }
}

/// Something the process has to carry out after an input event, in order.
#[derive(Debug, Clone, Copy, PartialEq, Eq, Structural)]
pub enum Effect {
    /// Grab and hide the mouse cursor, or release and show it.
    SetMouseGrab(bool),
    /// Show the console.
    OpenConsole,
    /// Hide the console.
    CloseConsole,
    /// Send the current input to the server.
    SendInput,
}

/// The client's input state: console, mouse grab and held buttons.
#[derive(Debug, Clone, Copy, PartialEq, Eq, Structural)]
pub struct ClientControls {
    pub console_open: bool,
    /// Whether the mouse was grabbed before the console was opened,
    /// so it can be restored when it closes.
    pub was_mouse_grabbed: bool,
    pub shift_pressed: bool,
    pub mouse_grabbed: bool,
    pub buttons: Buttons,
}

/// Opening the console: remember the grab, release every button and the mouse.
pub open spec fn open_console_spec(s: ClientControls) -> (ClientControls, Seq<Effect>) {
    (
        ClientControls {
            console_open: true,
            was_mouse_grabbed: s.mouse_grabbed,
            buttons: all_released(),
            mouse_grabbed: false,
            ..s
        },
        seq![Effect::OpenConsole, Effect::SetMouseGrab(false)],
    )
}

/// Closing the console: restore the grab the mouse had when it opened.
pub open spec fn close_console_spec(s: ClientControls) -> (ClientControls, Seq<Effect>) {
    (
        ClientControls { console_open: false, mouse_grabbed: s.was_mouse_grabbed, ..s },
        seq![Effect::CloseConsole, Effect::SetMouseGrab(s.was_mouse_grabbed)],
    )
}

/// Grabbing or releasing the mouse.
pub open spec fn grab_spec(s: ClientControls, grab: bool) -> (ClientControls, Seq<Effect>) {
    (ClientControls { mouse_grabbed: grab, ..s }, seq![Effect::SetMouseGrab(grab)])
}

/// Keys handled whether or not the console is open.
pub open spec fn client_key_spec(s: ClientControls, key: Key, pressed: bool) -> (
    ClientControls,
    Seq<Effect>,
) {
    match key {
        Key::Escape => if !pressed {
            (s, Seq::empty())
        } else if s.console_open {
            // With shift or without, ESC closes an open console.
            close_console_spec(s)
        } else if s.shift_pressed {
            // Shift + ESC opens the console.
            open_console_spec(s)
        } else {
            // ESC anywhere else just ungrabs the mouse.
            grab_spec(s, false)
        },
        Key::Backquote => if pressed && !s.console_open {
            open_console_spec(s)
        } else {
            (s, Seq::empty())
        },
        Key::ShiftLeft => (ClientControls { shift_pressed: pressed, ..s }, Seq::empty()),
        _ => (s, Seq::empty()),
    }
}

/// Keys handled only in game (when the console is closed): hold or release a button
/// and send the input.
pub open spec fn game_key_spec(s: ClientControls, key: Key, pressed: bool) -> (
    ClientControls,
    Seq<Effect>,
) {
    let buttons = match key_button(key) {
        Some(b) => with_button(s.buttons, b, pressed),
        None => s.buttons,
    };
    (ClientControls { buttons, ..s }, seq![Effect::SendInput])
}

/// A key was pressed or released.
pub open spec fn key_spec(s: ClientControls, key: Key, pressed: bool) -> (
    ClientControls,
    Seq<Effect>,
) {
    let (s1, e1) = client_key_spec(s, key, pressed);
    if s1.console_open {
        (s1, e1)
    } else {
        let (s2, e2) = game_key_spec(s1, key, pressed);
        (s2, e1 + e2)
    }
}

/// The window gained or lost focus.
pub open spec fn focus_spec(s: ClientControls, focus: bool, grab_on_focus: bool) -> (
    ClientControls,
    Seq<Effect>,
) {
    if focus {
        if grab_on_focus && !s.console_open {
            grab_spec(s, true)
        } else {
            (s, Seq::empty())
        }
    } else {
        grab_spec(s, false)
    }
}

/// A mouse button was pressed or released.
pub open spec fn mouse_spec(s: ClientControls, mb: MouseButton, pressed: bool) -> (
    ClientControls,
    Seq<Effect>,
) {
    if s.console_open {
        (s, Seq::empty())
    } else {
        let buttons = match mouse_button_button(mb) {
            Some(b) => with_button(s.buttons, b, pressed),
            None => s.buttons,
        };
        (
            ClientControls { mouse_grabbed: true, buttons, ..s },
            seq![Effect::SetMouseGrab(true), Effect::SendInput],
        )
    }
}

impl ClientControls {
    /// Closed console, mouse not grabbed, nothing held.
    pub fn new() -> (c: Self)
        ensures
            c == (ClientControls {
                console_open: false,
                was_mouse_grabbed: false,
                shift_pressed: false,
                mouse_grabbed: false,
                buttons: all_released(),
            }),
    {
        ClientControls {
            console_open: false,
            was_mouse_grabbed: false,
            shift_pressed: false,
            mouse_grabbed: false,
            buttons: Buttons {
                fire1: false,
                fire2: false,
                marker1: false,
                marker2: false,
                zoom: false,
                forward: false,
                backward: false,
                left: false,
                right: false,
                up: false,
                down: false,
                prev_weapon: false,
                next_weapon: false,
                reload: false,
                flag: false,
                grenade: false,
                kill: false,
                map: false,
                score: false,
                chat: false,
                pause: false,
                screenshot: false,
            },
        }
    }

    fn open_console(&mut self, effects: &mut Vec<Effect>)
        ensures
            *final(self) == open_console_spec(*old(self)).0,
            final(effects)@ == old(effects)@ + open_console_spec(*old(self)).1,
    {
        self.console_open = true;
        self.was_mouse_grabbed = self.mouse_grabbed;
        effects.push(Effect::OpenConsole);
        self.buttons.release_all_keys();
        self.set_mouse_grab(false, effects);
        assert(effects@ =~= old(effects)@ + open_console_spec(*old(self)).1);
    }

    fn close_console(&mut self, effects: &mut Vec<Effect>)
        ensures
            *final(self) == close_console_spec(*old(self)).0,
            final(effects)@ == old(effects)@ + close_console_spec(*old(self)).1,
    {
        self.console_open = false;
        effects.push(Effect::CloseConsole);
        let grab = self.was_mouse_grabbed;
        self.set_mouse_grab(grab, effects);
        assert(effects@ =~= old(effects)@ + close_console_spec(*old(self)).1);
    }

    /// Either grab mouse and hide cursor or ungrab mouse and show cursor.
    fn set_mouse_grab(&mut self, grab: bool, effects: &mut Vec<Effect>)
        ensures
            *final(self) == grab_spec(*old(self), grab).0,
            final(effects)@ == old(effects)@ + grab_spec(*old(self), grab).1,
    {
        // Don't exit early if grab == self.mouse_grabbed here,
        // the process's idea of the grab can be out of date.
        effects.push(Effect::SetMouseGrab(grab));
        self.mouse_grabbed = grab;
        assert(effects@ =~= old(effects)@ + grab_spec(*old(self), grab).1);
    }

    /// Input that is handled regardless of whether we're in menu/console/game.
    fn client_input(&mut self, key: Key, pressed: bool, effects: &mut Vec<Effect>)
        ensures
            *final(self) == client_key_spec(*old(self), key, pressed).0,
            final(effects)@ == old(effects)@ + client_key_spec(*old(self), key, pressed).1,
    {
        match key {
            Key::Escape => {
                if pressed {
                    if self.console_open {
                        self.close_console(effects);
                    } else if self.shift_pressed {
                        self.open_console(effects);
                    } else {
                        self.set_mouse_grab(false, effects);
                    }
                } else {
                    assert(effects@ =~= old(effects)@ + Seq::empty());
                }
            },
            Key::Backquote => {
                if pressed && !self.console_open {
                    self.open_console(effects);
                } else {
                    assert(effects@ =~= old(effects)@ + Seq::empty());
                }
            },
            Key::ShiftLeft => {
                self.shift_pressed = pressed;
                assert(effects@ =~= old(effects)@ + Seq::empty());
            },
            _ => {
                assert(effects@ =~= old(effects)@ + Seq::empty());
            },
        }
    }

    /// Input that is handled only when we're in game.
    fn game_input(&mut self, key: Key, pressed: bool, effects: &mut Vec<Effect>)
        ensures
            *final(self) == game_key_spec(*old(self), key, pressed).0,
            final(effects)@ == old(effects)@ + game_key_spec(*old(self), key, pressed).1,
    {
        if let Some(b) = button_for_key(key) {
            self.buttons.set(b, pressed);
        }
        effects.push(Effect::SendInput);
        assert(effects@ =~= old(effects)@ + game_key_spec(*old(self), key, pressed).1);
    }

    /// A key was pressed or released (repeats while held come as more presses).
    pub fn keyboard_input(&mut self, key: Key, pressed: bool) -> (effects: Vec<Effect>)
        ensures
            (*final(self), effects@) == key_spec(*old(self), key, pressed),
    {
        let mut effects = Vec::new();
        self.client_input(key, pressed, &mut effects);
        if !self.console_open {
            self.game_input(key, pressed, &mut effects);
        } else {
            assert(effects@ =~= Seq::empty() + client_key_spec(*old(self), key, pressed).1);
        }
        assert(effects@ =~= key_spec(*old(self), key, pressed).1);
        effects
    }

    /// The window gained or lost focus.
    ///
    /// Losing focus ungrabs the mouse, otherwise it stays grabbed when alt+tabbing
    /// to other windows. Gaining focus only grabs it if `grab_on_focus` is set.
    pub fn focused(&mut self, focus: bool, grab_on_focus: bool) -> (effects: Vec<Effect>)
        ensures
            (*final(self), effects@) == focus_spec(*old(self), focus, grab_on_focus),
    {
        let mut effects = Vec::new();
        if focus {
            if grab_on_focus && !self.console_open {
                self.set_mouse_grab(true, &mut effects);
            }
        } else {
            self.set_mouse_grab(false, &mut effects);
        }
        assert(effects@ =~= focus_spec(*old(self), focus, grab_on_focus).1);
        effects
    }

    /// A mouse button was pressed or released. Ignored while the console is open.
    pub fn mouse_input(&mut self, mb: MouseButton, pressed: bool) -> (effects: Vec<Effect>)
        ensures
            (*final(self), effects@) == mouse_spec(*old(self), mb, pressed),
    {
        let mut effects = Vec::new();
        if !self.console_open {
            self.set_mouse_grab(true, &mut effects);
            if let Some(b) = button_for_mouse(mb) {
                self.buttons.set(b, pressed);
            }
            effects.push(Effect::SendInput);
        }
        assert(effects@ =~= mouse_spec(*old(self), mb, pressed).1);
        effects
    }

    /// Whether mouse movement turns the player: only in game, with the mouse grabbed.
    pub fn mouse_motion_allowed(&self) -> (r: bool)
        ensures
            r == (!self.console_open && self.mouse_grabbed),
    {
        !self.console_open && self.mouse_grabbed
    }
}

/// Opening the console with the backquote key and closing it with escape
/// gives the mouse back the grab it had, with every button released.
pub proof fn law_console_restores_mouse_grab(s: ClientControls)
    requires
        !s.console_open,
    ensures
        ({
            let (opened, _) = key_spec(s, Key::Backquote, true);
            let (closed, _) = key_spec(opened, Key::Escape, true);
            &&& opened.console_open
            &&& opened.buttons == all_released()
            &&& !opened.mouse_grabbed
            &&& !closed.console_open
            &&& closed.mouse_grabbed == s.mouse_grabbed
            &&& closed.buttons == all_released()
        }),
{
}

/// While the console is open, keys and mouse buttons don't change the held buttons,
/// the mouse buttons do nothing at all, and no input is sent unless the key
/// was escape closing the console.
pub proof fn law_console_blocks_game_input(s: ClientControls, key: Key, mb: MouseButton, pressed: bool)
    requires
        s.console_open,
    ensures
        key_spec(s, key, pressed).0.buttons == s.buttons,
        (key != Key::Escape || !pressed) ==> !key_spec(s, key, pressed).1.contains(
            Effect::SendInput,
        ),
        mouse_spec(s, mb, pressed) == (s, Seq::<Effect>::empty()),
{
    let (s1, e1) = client_key_spec(s, key, pressed);
    if !s1.console_open {
        assert(key == Key::Escape && pressed);
    }
    assert(forall|i: int| 0 <= i < e1.len() ==> e1[i] != Effect::SendInput);
}

/// Losing focus always releases the mouse.
pub proof fn law_focus_loss_ungrabs(s: ClientControls, grab_on_focus: bool)
    ensures
        !focus_spec(s, false, grab_on_focus).0.mouse_grabbed,
        focus_spec(s, false, grab_on_focus).1 == seq![Effect::SetMouseGrab(false)],
{
}

/// The last grab effect of any event is the grab state the controls record,
/// so the process's cursor stays in step with them.
pub proof fn law_effects_match_grab(s: ClientControls, key: Key, mb: MouseButton, pressed: bool, focus: bool, grab_on_focus: bool)
    ensures
        last_grab(key_spec(s, key, pressed).1, s.mouse_grabbed) == key_spec(s, key, pressed).0.mouse_grabbed,
        last_grab(mouse_spec(s, mb, pressed).1, s.mouse_grabbed) == mouse_spec(s, mb, pressed).0.mouse_grabbed,
        last_grab(focus_spec(s, focus, grab_on_focus).1, s.mouse_grabbed) == focus_spec(s, focus, grab_on_focus).0.mouse_grabbed,
{
    reveal_with_fuel(last_grab, 4);
}

/// The grab the last `SetMouseGrab` in `effects` sets, or `current` if there's none.
pub open spec fn last_grab(effects: Seq<Effect>, current: bool) -> bool
    decreases effects.len(),
{
    if effects.len() == 0 {
        current
    } else {
        match effects.last() {
            Effect::SetMouseGrab(g) => g,
            _ => last_grab(effects.drop_last(), current),
        }
    }
}

/// With the console closed, each game key holds (or releases) its own button and no
/// other: W forward, A left, S backward, D right, space up, left shift down,
/// Q and E the previous and next weapon, R reload, F flag, G grenade, K kill,
/// M the map, tab the score, enter chat, pause pause and F12 a screenshot;
/// any other key holds nothing. The input is sent either way.
pub proof fn law_game_keys_hold_their_button(s: ClientControls, p: bool)
    requires
        !s.console_open,
    ensures
        key_spec(s, Key::KeyW, p).0.buttons == (Buttons { forward: p, ..s.buttons }),
        key_spec(s, Key::KeyA, p).0.buttons == (Buttons { left: p, ..s.buttons }),
        key_spec(s, Key::KeyS, p).0.buttons == (Buttons { backward: p, ..s.buttons }),
        key_spec(s, Key::KeyD, p).0.buttons == (Buttons { right: p, ..s.buttons }),
        key_spec(s, Key::Space, p).0.buttons == (Buttons { up: p, ..s.buttons }),
        key_spec(s, Key::ShiftLeft, p).0.buttons == (Buttons { down: p, ..s.buttons }),
        key_spec(s, Key::KeyQ, p).0.buttons == (Buttons { prev_weapon: p, ..s.buttons }),
        key_spec(s, Key::KeyE, p).0.buttons == (Buttons { next_weapon: p, ..s.buttons }),
        key_spec(s, Key::KeyR, p).0.buttons == (Buttons { reload: p, ..s.buttons }),
        key_spec(s, Key::KeyF, p).0.buttons == (Buttons { flag: p, ..s.buttons }),
        key_spec(s, Key::KeyG, p).0.buttons == (Buttons { grenade: p, ..s.buttons }),
        key_spec(s, Key::KeyK, p).0.buttons == (Buttons { kill: p, ..s.buttons }),
        key_spec(s, Key::KeyM, p).0.buttons == (Buttons { map: p, ..s.buttons }),
        key_spec(s, Key::Tab, p).0.buttons == (Buttons { score: p, ..s.buttons }),
        key_spec(s, Key::Enter, p).0.buttons == (Buttons { chat: p, ..s.buttons }),
        key_spec(s, Key::Pause, p).0.buttons == (Buttons { pause: p, ..s.buttons }),
        key_spec(s, Key::F12, p).0.buttons == (Buttons { screenshot: p, ..s.buttons }),
        key_spec(s, Key::Other, p).0.buttons == s.buttons,
        key_spec(s, Key::KeyA, p).1 == seq![Effect::SendInput],
{
}

/// With the console closed, each mouse button holds (or releases) its own button and
/// no other: left fire1, right fire2, middle zoom, forward (or button 8) marker1,
/// back (or button 9) marker2; other buttons hold nothing.
pub proof fn law_mouse_buttons_hold_their_button(s: ClientControls, p: bool, n: u16)
    requires
        !s.console_open,
        n != 8,
        n != 9,
    ensures
        mouse_spec(s, MouseButton::Left, p).0.buttons == (Buttons { fire1: p, ..s.buttons }),
        mouse_spec(s, MouseButton::Right, p).0.buttons == (Buttons { fire2: p, ..s.buttons }),
        mouse_spec(s, MouseButton::Middle, p).0.buttons == (Buttons { zoom: p, ..s.buttons }),
        mouse_spec(s, MouseButton::Forward, p).0.buttons == (Buttons { marker1: p, ..s.buttons }),
        mouse_spec(s, MouseButton::Back, p).0.buttons == (Buttons { marker2: p, ..s.buttons }),
        mouse_spec(s, MouseButton::Other(8), p).0.buttons == (Buttons { marker1: p, ..s.buttons }),
        mouse_spec(s, MouseButton::Other(9), p).0.buttons == (Buttons { marker2: p, ..s.buttons }),
        mouse_spec(s, MouseButton::Other(n), p).0.buttons == s.buttons,
{
}

} // verus!
