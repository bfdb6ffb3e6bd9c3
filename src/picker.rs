use vstd::prelude::*;
use crate::color::{Color, color_of_pixels, pixel_color};
use crate::error::PickError;

verus! {

/// The label of the persistent main window.
pub const MAIN_WINDOW: &'static str = "main";

/// The label of the overlay window that catches the next click.
pub const PICKER_WINDOW: &'static str = "picker";

/// The page that the overlay window shows.
pub const PICKER_PAGE: &'static str = "dropper.html";

/// The event that carries a picked color, as `#RRGGBB`, to the main window.
pub const COLOR_PICKED_EVENT: &'static str = "color-picked";

/// The event that tells the main window that no color could be picked.
pub const COLOR_PICK_FAILED_EVENT: &'static str = "color-pick-failed";

/// Which window holds the input focus.
#[derive(Clone, Copy, Debug, PartialEq, Eq, Structural)]
pub enum Focus {
    Nothing,
    Main,
    Picker,
}

/// One step for the windowing toolkit to carry out.
#[derive(Clone, Copy, Debug, PartialEq, Eq, Structural)]
pub enum WindowAction {
    /// Give the input focus to the open overlay.
    FocusPicker,
    /// Hide the main window.
    HideMain,
    /// Open the overlay window, laid out as `picker_overlay` says.
    OpenPicker,
    /// Close the overlay window.
    ClosePicker,
    /// Show the main window.
    ShowMain,
    /// Give the input focus to the main window.
    FocusMain,
    /// Tell the main window which color was picked.
    EmitColorPicked(Color),
    /// Tell the main window that no color could be picked.
    EmitColorPickFailed,
}

/// How the overlay window is laid out.
#[derive(Clone, Copy, Debug, PartialEq, Eq, Structural)]
pub struct Overlay {
    pub fullscreen: bool,
    pub transparent: bool,
    pub decorations: bool,
    pub always_on_top: bool,
}

/// The windows as the toolkit reports them when a command starts.
///
/// A snapshot of the toolkit is well formed (`wf` of its view); the overlay
/// count is kept so that a plan opening a second one would show.
#[derive(Clone, Copy, Debug, PartialEq, Eq, Structural)]
pub struct Desktop {
    pub main_open: bool,
    pub main_visible: bool,
    pub pickers: u32,
    pub focus: Focus,
}

/// The mathematical model of the desktop's windows.
pub struct DesktopModel {
    pub main_open: bool,
    pub main_visible: bool,
    pub pickers: nat,
    pub focus: Focus,
}

impl View for Desktop {
    type V = DesktopModel;

    open spec fn view(&self) -> DesktopModel {
        DesktopModel {
            main_open: self.main_open,
            main_visible: self.main_visible,
            pickers: self.pickers as nat,
            focus: self.focus,
        }
    }
}

impl DesktopModel {
    /// A desktop as the toolkit can have it: labels are unique, so at most
    /// one overlay is open.
    pub open spec fn wf(&self) -> bool {
        self.pickers <= 1
    }
}

/// Picker mode: an overlay is open and waits for a click.
pub open spec fn is_picking(m: DesktopModel) -> bool {
    m.pickers > 0
}

/// The effect of one action on the desktop. An action on a window that is
/// not open changes nothing.
pub open spec fn step(m: DesktopModel, a: WindowAction) -> DesktopModel {
    match a {
        WindowAction::FocusPicker => if m.pickers > 0 {
            DesktopModel { focus: Focus::Picker, ..m }
        } else {
            m
        },
        WindowAction::HideMain => if m.main_open {
            DesktopModel {
                main_visible: false,
                focus: if m.focus == Focus::Main { Focus::Nothing } else { m.focus },
                ..m
            }
        } else {
            m
        },
        WindowAction::OpenPicker => DesktopModel { pickers: m.pickers + 1, focus: Focus::Picker, ..m },
        WindowAction::ClosePicker => if m.pickers > 0 {
            DesktopModel {
                pickers: (m.pickers - 1) as nat,
                focus: if m.focus == Focus::Picker { Focus::Nothing } else { m.focus },
                ..m
            }
        } else {
            m
        },
        WindowAction::ShowMain => if m.main_open {
            DesktopModel { main_visible: true, ..m }
        } else {
            m
        },
        WindowAction::FocusMain => if m.main_open {
            DesktopModel { focus: Focus::Main, ..m }
        } else {
            m
        },
        WindowAction::EmitColorPicked(_) => m,
        WindowAction::EmitColorPickFailed => m,
    }
}

/// The effect of a sequence of actions, carried out in order.
pub open spec fn run(m: DesktopModel, actions: Seq<WindowAction>) -> DesktopModel
    decreases actions.len(),
{
    if actions.len() == 0 {
        m
    } else {
        run(step(m, actions[0]), actions.drop_first())
    }
}

/// What a command asks of the toolkit, and what it returns once every
/// action has been carried out.
pub struct Plan {
    pub actions: Vec<WindowAction>,
    pub outcome: Result<(), PickError>,
}

/// Entering picker mode: focus the overlay if one is open; otherwise hide
/// the main window and open an overlay, which needs the main window.
pub open spec fn enter_actions(m: DesktopModel) -> Seq<WindowAction> {
    if m.pickers > 0 {
        seq![WindowAction::FocusPicker]
    } else if m.main_open {
        seq![WindowAction::HideMain, WindowAction::OpenPicker]
    } else {
        seq![]
    }
}

pub open spec fn enter_outcome(m: DesktopModel) -> Result<(), PickError> {
    if m.pickers == 0 && !m.main_open {
        Err(PickError::WindowNotFound)
    } else {
        Ok(())
    }
}

/// The color that a capture gives: the capture's own error, the color its
/// buffer starts with, or `InsufficientPixelData`.
pub open spec fn sample_of(capture: Result<Vec<u8>, PickError>) -> Result<Color, PickError> {
    match capture {
        Ok(px) => match color_of_pixels(px@) {
            Some(c) => Ok(c),
            None => Err(PickError::InsufficientPixelData),
        },
        Err(e) => Err(e),
    }
}

/// The event that reports a sample to the main window.
pub open spec fn notice_of(sample: Result<Color, PickError>) -> WindowAction {
    match sample {
        Ok(c) => WindowAction::EmitColorPicked(c),
        Err(_) => WindowAction::EmitColorPickFailed,
    }
}

/// Closing the overlay, if one is open, and bringing the main window back.
pub open spec fn restore_actions(m: DesktopModel) -> Seq<WindowAction> {
    if m.pickers > 0 {
        seq![WindowAction::ClosePicker, WindowAction::ShowMain, WindowAction::FocusMain]
    } else {
        seq![WindowAction::ShowMain, WindowAction::FocusMain]
    }
}

/// Capturing and closing: with the main window open, restore it and report
/// the sample, whether or not it succeeded.
pub open spec fn capture_actions(m: DesktopModel, capture: Result<Vec<u8>, PickError>) -> Seq<
    WindowAction,
> {
    if m.main_open {
        restore_actions(m).push(notice_of(sample_of(capture)))
    } else {
        seq![]
    }
}

/// The result of capturing and closing: the capture backend's error if
/// the capture failed, else `WindowNotFound` without a main window, else
/// success. A buffer too short for a color is no failure of the command: it
/// is reported to the main window by `EmitColorPickFailed`.
pub open spec fn capture_outcome(m: DesktopModel, capture: Result<Vec<u8>, PickError>) -> Result<
    (),
    PickError,
> {
    match capture {
        Err(e) => Err(e),
        Ok(_) => if m.main_open {
            Ok(())
        } else {
            Err(PickError::WindowNotFound)
        },
    }
}

/// Cancelling: close the overlay if one is open, and bring the main window
/// back if it is open.
pub open spec fn cancel_actions(m: DesktopModel) -> Seq<WindowAction> {
    let close = if m.pickers > 0 { seq![WindowAction::ClosePicker] } else { seq![] };
    let restore = if m.main_open { seq![WindowAction::ShowMain, WindowAction::FocusMain] } else { seq![] };
    close + restore
}

/// How the overlay window is laid out: full screen, transparent, without
/// decorations and above every other window.
pub fn picker_overlay() -> (r: Overlay)
    ensures
        r == (Overlay { fullscreen: true, transparent: true, decorations: false, always_on_top: true }),
{
    Overlay { fullscreen: true, transparent: true, decorations: false, always_on_top: true }
}

/// Plans entering picker mode. Entering again while an overlay is open only
/// focuses it; without an overlay, the main window must be open.
pub fn enter_picker_mode(d: &Desktop) -> (p: Plan)
    ensures
        p.actions@ == enter_actions(d@),
        p.outcome == enter_outcome(d@),
{
    if d.pickers > 0 {
        Plan { actions: vec![WindowAction::FocusPicker], outcome: Ok(()) }
    } else if d.main_open {
        Plan { actions: vec![WindowAction::HideMain, WindowAction::OpenPicker], outcome: Ok(()) }
    } else {
        Plan { actions: Vec::new(), outcome: Err(PickError::WindowNotFound) }
    }
}

/// Plans capturing the pixel under the cursor and leaving picker mode.
///
/// `capture` is the pixel buffer captured at the cursor, or the error of
/// locating the cursor's screen or capturing it. Unless the main window is
/// missing, the overlay is closed, the main window is shown and focused,
/// and the main window is told the color or the failure. Only a failed
/// capture or a missing main window makes the command fail; a buffer too
/// short for a color is reported by the failure event alone.
pub fn capture_color_and_close(d: &Desktop, capture: Result<Vec<u8>, PickError>) -> (p: Plan)
    ensures
        p.actions@ == capture_actions(d@, capture),
        p.outcome == capture_outcome(d@, capture),
{
    if !d.main_open {
        let outcome = match capture {
            Err(e) => Err(e),
            Ok(_) => Err(PickError::WindowNotFound),
        };
        return Plan { actions: Vec::new(), outcome };
    }
    let (notice, outcome): (WindowAction, Result<(), PickError>) = match capture {
        Ok(px) => match pixel_color(px.as_slice()) {
            Ok(c) => (WindowAction::EmitColorPicked(c), Ok(())),
            Err(_) => (WindowAction::EmitColorPickFailed, Ok(())),
        },
        Err(e) => (WindowAction::EmitColorPickFailed, Err(e)),
    };
    let mut actions: Vec<WindowAction> = Vec::new();
    if d.pickers > 0 {
        actions.push(WindowAction::ClosePicker);
    }
    actions.push(WindowAction::ShowMain);
    actions.push(WindowAction::FocusMain);
    actions.push(notice);
    assert(actions@ =~= capture_actions(d@, capture));
    Plan { actions, outcome }
}

/// Plans leaving picker mode without a color. Missing windows are taken as
/// already dealt with, so this never fails.
pub fn cancel_picker(d: &Desktop) -> (p: Plan)
    ensures
        p.actions@ == cancel_actions(d@),
        p.outcome == Ok::<(), PickError>(()),
{
    let mut actions: Vec<WindowAction> = Vec::new();
    if d.pickers > 0 {
        actions.push(WindowAction::ClosePicker);
    }
    if d.main_open {
        actions.push(WindowAction::ShowMain);
        actions.push(WindowAction::FocusMain);
    }
    assert(actions@ =~= cancel_actions(d@));
    Plan { actions, outcome: Ok(()) }
}

impl Desktop {
    /// Carries out one action on this snapshot, as the toolkit would.
    pub fn apply(&mut self, a: WindowAction)
        requires
            old(self).pickers < u32::MAX,
        ensures
            final(self)@ == step(old(self)@, a),
    {
        match a {
            WindowAction::FocusPicker => {
                if self.pickers > 0 {
                    self.focus = Focus::Picker;
                }
            },
            WindowAction::HideMain => {
                if self.main_open {
                    self.main_visible = false;
                    if self.focus == Focus::Main {
                        self.focus = Focus::Nothing;
                    }
                }
            },
            WindowAction::OpenPicker => {
                self.pickers = self.pickers + 1;
                self.focus = Focus::Picker;
            },
            WindowAction::ClosePicker => {
                if self.pickers > 0 {
                    self.pickers = self.pickers - 1;
                    if self.focus == Focus::Picker {
                        self.focus = Focus::Nothing;
                    }
                }
            },
            WindowAction::ShowMain => {
                if self.main_open {
                    self.main_visible = true;
                }
            },
            WindowAction::FocusMain => {
                if self.main_open {
                    self.focus = Focus::Main;
                }
            },
            WindowAction::EmitColorPicked(_) => {},
            WindowAction::EmitColorPickFailed => {},
        }
    }

    /// Carries out a plan's actions on this snapshot, in order.
    pub fn apply_all(&mut self, actions: &Vec<WindowAction>)
        requires
            old(self).pickers + actions@.len() <= u32::MAX,
        ensures
            final(self)@ == run(old(self)@, actions@),
    {
        let ghost start = self@;
        let mut i: usize = 0;
        assert(actions@.skip(0) =~= actions@);
        while i < actions.len()
            invariant
                0 <= i <= actions@.len(),
                self.pickers + (actions@.len() - i) <= u32::MAX,
                run(self@, actions@.skip(i as int)) == run(start, actions@),
            decreases actions@.len() - i,
        {
            proof {
                assert(actions@.skip(i as int)[0] == actions@[i as int]);
                assert(actions@.skip(i as int).drop_first() =~= actions@.skip(i + 1));
            }
            self.apply(actions[i]);
            i = i + 1;
        }
        assert(actions@.skip(i as int) =~= Seq::<WindowAction>::empty());
    }
}

/// Entering picker mode twice in a row, with nothing closed between, leaves
/// exactly one overlay open: the second entry changes nothing.
pub proof fn lemma_enter_twice_one_picker(m: DesktopModel)
    requires
        m.wf(),
        enter_outcome(m).is_ok(),
    ensures
        ({
            let m1 = run(m, enter_actions(m));
            let m2 = run(m1, enter_actions(m1));
            &&& enter_outcome(m1).is_ok()
            &&& m2.pickers == 1
            &&& m2 == m1
            &&& m1.main_open == m.main_open
        }),
{
    reveal_with_fuel(run, 3);
    let m1 = run(m, enter_actions(m));
    if m.pickers == 0 {
        assert(enter_actions(m).drop_first() =~= seq![WindowAction::OpenPicker]);
        assert(seq![WindowAction::OpenPicker].drop_first() =~= Seq::<WindowAction>::empty());
    } else {
        assert(enter_actions(m).drop_first() =~= Seq::<WindowAction>::empty());
    }
    assert(enter_actions(m1).drop_first() =~= Seq::<WindowAction>::empty());
}

/// From idle with the main window open, entering picker mode hides the main
/// window and opens one overlay.
pub proof fn lemma_enter_from_idle(m: DesktopModel)
    requires
        !is_picking(m),
        m.main_open,
    ensures
        ({
            let m1 = run(m, enter_actions(m));
            &&& m1.pickers == 1
            &&& !m1.main_visible
            &&& m1.focus == Focus::Picker
        }),
{
    reveal_with_fuel(run, 3);
    assert(enter_actions(m).drop_first() =~= seq![WindowAction::OpenPicker]);
    assert(seq![WindowAction::OpenPicker].drop_first() =~= Seq::<WindowAction>::empty());
}

/// Restoring after a capture, from a desktop with the main window and at
/// most one overlay, leaves no overlay and the main window shown and focused.
proof fn lemma_capture_restores(m: DesktopModel, capture: Result<Vec<u8>, PickError>)
    requires
        m.wf(),
        m.main_open,
    ensures
        ({
            let m2 = run(m, capture_actions(m, capture));
            &&& m2.pickers == 0
            &&& m2.main_open
            &&& m2.main_visible
            &&& m2.focus == Focus::Main
        }),
{
    reveal_with_fuel(run, 5);
    let acts = capture_actions(m, capture);
    let n = notice_of(sample_of(capture));
    if m.pickers > 0 {
        assert(acts.drop_first() =~= seq![WindowAction::ShowMain, WindowAction::FocusMain, n]);
    }
    assert(seq![WindowAction::ShowMain, WindowAction::FocusMain, n].drop_first() =~= seq![
        WindowAction::FocusMain,
        n,
    ]);
    assert(seq![WindowAction::FocusMain, n].drop_first() =~= seq![n]);
    assert(seq![n].drop_first() =~= Seq::<WindowAction>::empty());
    if m.pickers == 0 {
        assert(acts =~= seq![WindowAction::ShowMain, WindowAction::FocusMain, n]);
    }
}

/// Entering picker mode and then capturing leaves the desktop idle, with
/// the main window shown and focused, whatever the capture gave; the main
/// window is told the color or the failure.
pub proof fn lemma_enter_then_capture_is_idle(m: DesktopModel, capture: Result<Vec<u8>, PickError>)
    requires
        m.wf(),
        m.main_open,
    ensures
        ({
            let m1 = run(m, enter_actions(m));
            let acts = capture_actions(m1, capture);
            let m2 = run(m1, acts);
            &&& !is_picking(m2)
            &&& m2.main_visible
            &&& m2.focus == Focus::Main
            &&& acts.last() == notice_of(sample_of(capture))
        }),
{
    lemma_enter_twice_one_picker(m);
    let m1 = run(m, enter_actions(m));
    lemma_capture_restores(m1, capture);
}

/// Cancelling with neither an overlay nor a main window asks for nothing and
/// changes nothing; like every cancellation it succeeds.
pub proof fn lemma_cancel_without_windows(m: DesktopModel)
    requires
        !m.main_open,
        m.pickers == 0,
    ensures
        cancel_actions(m) == Seq::<WindowAction>::empty(),
        run(m, cancel_actions(m)) == m,
{
    assert(cancel_actions(m) =~= Seq::<WindowAction>::empty());
}

/// Cancelling from a desktop with at most one overlay leaves it idle, and
/// the main window, if open, shown and focused.
pub proof fn lemma_cancel_is_idle(m: DesktopModel)
    requires
        m.wf(),
    ensures
        ({
            let m2 = run(m, cancel_actions(m));
            &&& !is_picking(m2)
            &&& m2.main_open == m.main_open
            &&& m.main_open ==> m2.main_visible && m2.focus == Focus::Main
        }),
{
    reveal_with_fuel(run, 4);
    let acts = cancel_actions(m);
    assert(seq![WindowAction::ShowMain, WindowAction::FocusMain].drop_first() =~= seq![
        WindowAction::FocusMain,
    ]);
    assert(seq![WindowAction::FocusMain].drop_first() =~= Seq::<WindowAction>::empty());
    assert(seq![WindowAction::ClosePicker].drop_first() =~= Seq::<WindowAction>::empty());
    if m.pickers > 0 && m.main_open {
        assert(acts =~= seq![WindowAction::ClosePicker, WindowAction::ShowMain, WindowAction::FocusMain]);
        assert(acts.drop_first() =~= seq![WindowAction::ShowMain, WindowAction::FocusMain]);
    } else if m.pickers > 0 {
        assert(acts =~= seq![WindowAction::ClosePicker]);
    } else if m.main_open {
        assert(acts =~= seq![WindowAction::ShowMain, WindowAction::FocusMain]);
    } else {
        assert(acts =~= Seq::<WindowAction>::empty());
    }
}

/// No plan opens a second overlay: from a desktop with at most one overlay,
/// entering, capturing and cancelling each leave at most one.
pub proof fn lemma_plans_keep_one_overlay(m: DesktopModel, capture: Result<Vec<u8>, PickError>)
    requires
        m.wf(),
    ensures
        run(m, enter_actions(m)).wf(),
        run(m, capture_actions(m, capture)).wf(),
        run(m, cancel_actions(m)).wf(),
{
    if enter_outcome(m).is_ok() {
        lemma_enter_twice_one_picker(m);
    } else {
        assert(enter_actions(m) =~= Seq::<WindowAction>::empty());
    }
    if m.main_open {
        lemma_capture_restores(m, capture);
    }
    lemma_cancel_is_idle(m);
}

/// What the caller does next while carrying out a plan.
#[derive(Debug, PartialEq, Eq)]
pub enum Progress {
    /// Carry out the action at this index of the plan.
    Perform(usize),
    /// Stop: the command returns this.
    Finish(Result<(), PickError>),
}

/// A copy of an outcome.
fn copy_outcome(o: &Result<(), PickError>) -> (r: Result<(), PickError>)
    ensures
        r == *o,
{
    match o {
        Ok(u) => Ok(*u),
        Err(PickError::WindowNotFound) => Err(PickError::WindowNotFound),
        Err(PickError::ScreenNotFound(m)) => Err(PickError::ScreenNotFound(m.clone())),
        Err(PickError::CaptureError(m)) => Err(PickError::CaptureError(m.clone())),
        Err(PickError::InsufficientPixelData) => Err(PickError::InsufficientPixelData),
        Err(PickError::ClipboardUnavailable(m)) => Err(PickError::ClipboardUnavailable(m.clone())),
        Err(PickError::FocusError(m)) => Err(PickError::FocusError(m.clone())),
    }
}

/// Where carrying out a plan begins: its first action, or its outcome when
/// it has none.
pub fn start(plan: &Plan) -> (r: Progress)
    ensures
        plan.actions@.len() == 0 ==> r == Progress::Finish(plan.outcome),
        plan.actions@.len() > 0 ==> r == Progress::Perform(0),
{
    if plan.actions.len() == 0 {
        Progress::Finish(copy_outcome(&plan.outcome))
    } else {
        Progress::Perform(0)
    }
}

/// What follows the action at `index`, given how the toolkit did it: a
/// toolkit failure stops the plan and is returned; after a success comes the
/// next action, or the plan's outcome after the last one.
pub fn after(plan: &Plan, index: usize, result: Result<(), PickError>) -> (r: Progress)
    requires
        index < plan.actions@.len(),
    ensures
        result.is_err() ==> r == Progress::Finish(result),
        result.is_ok() && index + 1 < plan.actions@.len() ==> r == Progress::Perform(
            (index + 1) as usize,
        ),
        result.is_ok() && index + 1 == plan.actions@.len() ==> r == Progress::Finish(plan.outcome),
{
    match result {
        Err(e) => Progress::Finish(Err(e)),
        Ok(()) => if index < plan.actions.len() - 1 {
            Progress::Perform(index + 1)
        } else {
            Progress::Finish(copy_outcome(&plan.outcome))
        },
    }
}

} // verus!
