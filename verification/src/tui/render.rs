//! The whole screen, as data.
use vstd::prelude::*;

use crate::tui::panes::{StatusLine, StatusLineModel};
use crate::tui::state::{AppState, LayoutMode};
use crate::tui::theme::{Style, Theme};
use crate::tui::view::{ListPane, ListPaneModel, Popup, PopupModel, TextPane, TextPaneModel};

verus! {

/// The height of the composer in rows.
pub const COMPOSER_HEIGHT: u16 = 3;

/// The least height of the conversation in rows.
pub const CONVERSATION_HEIGHT: u16 = 3;

/// The width of each outer pane of the workspace, in percent.
pub const OUTER_PERCENT: u16 = 26;

/// The width of the conversation between them, in percent.
pub const INNER_PERCENT: u16 = 48;

/// The cells that a frame has for what depends on them: inside the conversation, and for the
/// status line.
#[derive(Clone, Copy, Debug, PartialEq, Eq, Structural)]
pub struct Room {
    pub conversation_width: u16,
    pub conversation_height: u16,
    pub status_width: u16,
}

/// What stands beside the conversation.
#[derive(Clone, Debug, PartialEq, Eq)]
pub struct Sides {
    pub runs: ListPane,
    pub context: TextPane,
}

/// A whole screen, from the bottom to the top.
#[derive(Clone, Debug, PartialEq, Eq)]
pub struct Screen {
    pub background: Style,
    pub conversation: TextPane,
    /// The panes beside the conversation, in the workspace layout.
    pub sides: Option<Sides>,
    pub composer: TextPane,
    pub status: StatusLine,
    pub popups: Vec<Popup>,
    /// The scroll limit that the next paging starts from.
    pub transcript_max_scroll: u16,
}

/// What [`Sides`] say.
pub struct SidesModel {
    pub runs: ListPaneModel,
    pub context: TextPaneModel,
}

/// What a [`Screen`] says.
pub struct ScreenModel {
    pub background: Style,
    pub conversation: TextPaneModel,
    pub sides: Option<SidesModel>,
    pub composer: TextPaneModel,
    pub status: StatusLineModel,
    pub popups: Seq<PopupModel>,
    pub transcript_max_scroll: u16,
}

impl View for Sides {
    type V = SidesModel;

    open spec fn view(&self) -> SidesModel {
        SidesModel { runs: self.runs@, context: self.context@ }
    }
}

impl View for Screen {
    type V = ScreenModel;

    open spec fn view(&self) -> ScreenModel {
        ScreenModel {
            background: self.background,
            conversation: self.conversation@,
            sides: match self.sides {
                Some(sides) => Some(sides@),
                None => None,
            },
            composer: self.composer@,
            status: self.status@,
            popups: crate::tui::view::popup_models(self.popups@),
            transcript_max_scroll: self.transcript_max_scroll,
        }
    }
}

/// The screen that a state shows. The composer and the status line are the same in both
/// layouts.
pub open spec fn screen(state: AppState, theme: Theme, room: Room, capability: Seq<char>) -> ScreenModel {
    ScreenModel {
        background: crate::tui::view::backed(theme.surface.background),
        conversation: crate::tui::panes::conversation_view(
            state,
            theme,
            room.conversation_width,
            room.conversation_height,
        ),
        sides: match state.layout {
            LayoutMode::Chat => None,
            LayoutMode::Workspace => Some(
                SidesModel {
                    runs: crate::tui::panes::runs_view(state, theme),
                    context: crate::tui::panes::context_view(state, theme),
                },
            ),
        },
        composer: crate::tui::panes::composer_view(state, theme),
        status: crate::tui::panes::status_view(state, theme, room.status_width),
        popups: crate::tui::dialogs::overlays_view(state, theme, capability),
        transcript_max_scroll: crate::tui::panes::limit_after(
            state,
            theme,
            room.conversation_width,
            room.conversation_height,
        ),
    }
}

/// The screen that `state` shows. `capability` names what the focused approval's action takes.
pub fn render(state: &AppState, theme: &Theme, room: Room, capability: &str) -> (r: Screen)
    ensures
        r@ == screen(*state, *theme, room, capability@),
{
    let (conversation, transcript_max_scroll): (TextPane, u16) =
        crate::tui::panes::render_conversation(
        state,
        theme,
        room.conversation_width,
        room.conversation_height,
    );
    let sides: Option<Sides> = match state.layout {
        LayoutMode::Chat => None,
        LayoutMode::Workspace => Some(render_workspace(state, theme)),
    };
    Screen {
        background: crate::tui::view::on_color(theme.surface.background),
        conversation,
        sides,
        composer: crate::tui::panes::render_composer(state, theme),
        status: crate::tui::panes::render_status_line(state, theme, room.status_width),
        popups: crate::tui::dialogs::render_overlays(state, theme, capability),
        transcript_max_scroll,
    }
}

/// The panes beside the conversation.
pub fn render_workspace(state: &AppState, theme: &Theme) -> (r: Sides)
    ensures
        r.runs@ == crate::tui::panes::runs_view(*state, *theme),
        r.context@ == crate::tui::panes::context_view(*state, *theme),
{
    Sides {
        runs: crate::tui::panes::render_runs_pane(state, theme),
        context: crate::tui::panes::render_context_pane(state, theme),
    }
}

/// The parts, in percent, that put something of `percent` in the middle.
pub fn centered(percent: u16) -> (r: (u16, u16, u16))
    requires
        percent <= 100,
    ensures
        r.0 == (100 - percent) / 2,
        r.1 == percent,
        r.2 == (100 - percent) / 2,
        99 <= r.0 + r.1 + r.2 <= 100,
{
    let side: u16 = (100 - percent) / 2;
    (side, percent, side)
}

/// Toggling the layout changes only what stands beside the conversation.
pub proof fn law_layouts_differ_only_beside_the_conversation(
    a: AppState,
    theme: Theme,
    room: Room,
    capability: Seq<char>,
)
    ensures
        ({
            let b = AppState { layout: a.layout.other(), ..a };
            let x = screen(a, theme, room, capability);
            let y = screen(b, theme, room, capability);
            &&& x.conversation == y.conversation
            &&& x.composer == y.composer
            &&& x.status == y.status
            &&& x.sides is Some != y.sides is Some
        }),
{
    let b = AppState { layout: a.layout.other(), ..a };
    assert(a.run() == b.run());
}

/// There is never more than one overlay up, but for the prompt above the document it edits.
pub proof fn law_overlays_do_not_stack(state: AppState, theme: Theme, capability: Seq<char>)
    ensures
        crate::tui::dialogs::overlays_view(state, theme, capability).len() <= 2,
        crate::tui::dialogs::overlays_view(state, theme, capability).len() == 2
            ==> state.overlay is DocEdit,
{
}

} // verus!
