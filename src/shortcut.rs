use vstd::prelude::*;
use vstd::string::StringExecFns;

verus! {

/// A key combination that the desktop shell captures system-wide.
#[derive(Clone, Copy, Debug, PartialEq, Eq, Structural)]
pub struct Hotkey {
    pub control: bool,
    pub alt: bool,
    pub shift: bool,
    pub super_key: bool,
    /// The letter key, in upper case.
    pub key: char,
}

/// The two transitions that a global shortcut reports.
#[derive(Clone, Copy, Debug, PartialEq, Eq, Structural)]
pub enum ShortcutState {
    Pressed,
    Released,
}

/// One best-effort operation on the main window.
#[derive(Clone, Copy, Debug, PartialEq, Eq, Structural)]
pub enum WindowAction {
    Show,
    Focus,
    /// Deliver the new-task event, with an empty payload, to the window.
    EmitNewTask,
}

/// The label of the window that the hotkey brings forward.
pub open spec fn main_window_label_spec() -> Seq<char> {
    "main"@
}

/// The name of the event that asks the user interface for a new task.
pub open spec fn new_task_event_spec() -> Seq<char> {
    "global-shortcut-new-task"@
}

/// The combination that opens a new task: Ctrl+Alt+Super+N.
pub open spec fn new_task_hotkey_spec() -> Hotkey {
    Hotkey { control: true, alt: true, shift: false, super_key: true, key: 'N' }
}

/// What the shell does for one shortcut transition: on a press while the main
/// window exists, show it, focus it, then emit the new-task event; otherwise nothing.
pub open spec fn actions_for(state: ShortcutState, main_window_present: bool) -> Seq<WindowAction> {
    if state == ShortcutState::Pressed && main_window_present {
        seq![WindowAction::Show, WindowAction::Focus, WindowAction::EmitNewTask]
    } else {
        Seq::empty()
    }
}

/// How many times `a` occurs in `s`.
pub open spec fn count_of(s: Seq<WindowAction>, a: WindowAction) -> nat
    decreases s.len(),
{
    if s.len() == 0 {
        0
    } else {
        count_of(s.drop_last(), a) + if s.last() == a {
            1nat
        } else {
            0nat
        }
    }
}

/// The label of the window that the hotkey brings forward.
pub fn main_window_label() -> (r: String)
    ensures
        r@ == main_window_label_spec(),
{
    proof {
        reveal_strlit("main");
    }
    String::from_str("main")
}

/// The name of the event emitted to the main window when the hotkey is pressed.
pub fn new_task_event() -> (r: String)
    ensures
        r@ == new_task_event_spec(),
{
    proof {
        reveal_strlit("global-shortcut-new-task");
    }
    String::from_str("global-shortcut-new-task")
}

/// The hotkey registered at startup.
pub fn new_task_hotkey() -> (r: Hotkey)
    ensures
        r == new_task_hotkey_spec(),
{
    Hotkey { control: true, alt: true, shift: false, super_key: true, key: 'N' }
}

/// Decides what to do with the main window for one transition of the hotkey.
/// Each returned action is to be attempted in order, and its failure ignored.
pub fn shortcut_actions(state: ShortcutState, main_window_present: bool) -> (r: Vec<WindowAction>)
    ensures
        r@ == actions_for(state, main_window_present),
{
    let mut r: Vec<WindowAction> = Vec::new();
    match state {
        ShortcutState::Pressed => {
            if main_window_present {
                r.push(WindowAction::Show);
                r.push(WindowAction::Focus);
                r.push(WindowAction::EmitNewTask);
            }
        },
        ShortcutState::Released => {},
    }
    proof {
        assert(r@ =~= actions_for(state, main_window_present));
    }
    r
}

/// A press while the main window exists shows the window, then focuses it, and
/// emits the new-task event exactly once, after both.
pub proof fn lemma_press_shows_focuses_and_emits_once()
    ensures
        actions_for(ShortcutState::Pressed, true).contains(WindowAction::Show),
        actions_for(ShortcutState::Pressed, true).contains(WindowAction::Focus),
        count_of(actions_for(ShortcutState::Pressed, true), WindowAction::Show) == 1,
        count_of(actions_for(ShortcutState::Pressed, true), WindowAction::Focus) == 1,
        count_of(actions_for(ShortcutState::Pressed, true), WindowAction::EmitNewTask) == 1,
        actions_for(ShortcutState::Pressed, true).last() == WindowAction::EmitNewTask,
{
    let s = actions_for(ShortcutState::Pressed, true);
    assert(s[0] == WindowAction::Show);
    assert(s[1] == WindowAction::Focus);
    let s2 = s.drop_last();
    let s1 = s2.drop_last();
    let s0 = s1.drop_last();
    assert(s0.len() == 0);
    assert(s1.last() == WindowAction::Show);
    assert(s2.last() == WindowAction::Focus);
    reveal_with_fuel(count_of, 4);
}

/// Releasing the hotkey produces no action, whether or not the main window exists.
pub proof fn lemma_release_is_no_op(main_window_present: bool)
    ensures
        actions_for(ShortcutState::Released, main_window_present).len() == 0,
{
}

/// Without a main window, no transition of the hotkey produces an action.
pub proof fn lemma_absent_window_is_no_op(state: ShortcutState)
    ensures
        actions_for(state, false).len() == 0,
{
}

} // verus!
