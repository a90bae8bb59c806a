use vstd::prelude::*;
use crate::focus::FocusPanel;
use crate::text::{from_str, concat};

verus! {

/// What is selected, which decides the hint shown in the hotkey bar.
#[derive(Debug, Clone, Copy, PartialEq, Eq, Structural)]
pub enum HotkeyContext {
    Nothing,
    ObjectivesPanelNoSelection,
    ObjectiveSelectedNoAgent,
    ObjectiveSelectedWithAgent,
    AgentSelected,
    AgentSelectedHitlPending,
    EventLogFocused,
}

/// The hint text of each context.
pub open spec fn context_text(ctx: HotkeyContext) -> Seq<char> {
    match ctx {
        HotkeyContext::Nothing => ""@,
        HotkeyContext::ObjectivesPanelNoSelection => "S:Spawn (file picker)"@,
        HotkeyContext::ObjectiveSelectedNoAgent => "S:Spawn  E:Edit  V:View  X:Delete"@,
        HotkeyContext::ObjectiveSelectedWithAgent => "K:Kill  P:Pause  Enter:HITL  E:Edit  V:View"@,
        HotkeyContext::AgentSelected => "Enter:Attach  K:Kill  P:Pause"@,
        HotkeyContext::AgentSelectedHitlPending => "Enter:Respond to question  K:Kill  P:Pause"@,
        HotkeyContext::EventLogFocused => "Up/Down:Scroll  Home/End:Jump"@,
    }
}

/// The hint line for a context.
pub fn context_line(ctx: &HotkeyContext) -> (r: &'static str)
    ensures
        r@ == context_text(*ctx),
{
    match ctx {
        HotkeyContext::Nothing => "",
        HotkeyContext::ObjectivesPanelNoSelection => "S:Spawn (file picker)",
        HotkeyContext::ObjectiveSelectedNoAgent => "S:Spawn  E:Edit  V:View  X:Delete",
        HotkeyContext::ObjectiveSelectedWithAgent => "K:Kill  P:Pause  Enter:HITL  E:Edit  V:View",
        HotkeyContext::AgentSelected => "Enter:Attach  K:Kill  P:Pause",
        HotkeyContext::AgentSelectedHitlPending => "Enter:Respond to question  K:Kill  P:Pause",
        HotkeyContext::EventLogFocused => "Up/Down:Scroll  Home/End:Jump",
    }
}

/// The content of the two-line hotkey bar: the focused tab, the context and
/// a pending human-in-the-loop hint, which takes precedence over the context.
pub struct HotkeyBarWidget {
    pub context: HotkeyContext,
    pub hitl_hint: Option<String>,
    pub focus: FocusPanel,
}

impl HotkeyBarWidget {
    /// Text of the second bar line (without its leading space): the HITL
    /// hint when there is one, else the context's hint.
    pub fn hint_text(&self) -> (r: String)
        ensures
            r@ == match self.hitl_hint {
                Some(h) => h@,
                None => context_text(self.context),
            },
    {
        match &self.hitl_hint {
            Some(h) => h.clone(),
            None => context_line(&self.context).to_owned(),
        }
    }

    /// The second bar line: the hint after one space, or nothing when
    /// there is no hint.
    pub fn hint_line(&self) -> (r: String)
        ensures
            r@ == ({
                let t = match self.hitl_hint {
                    Some(h) => h@,
                    None => context_text(self.context),
                };
                if t.len() == 0 { Seq::empty() } else { " "@ + t }
            }),
    {
        let t = self.hint_text();
        if t.as_str().is_empty() {
            String::new()
        } else {
            concat(&from_str(" "), &t)
        }
    }

    /// Whether the tab of `panel` is drawn as the active one.
    pub fn tab_is_active(&self, panel: FocusPanel) -> (r: bool)
        ensures
            r == (self.focus == panel),
    {
        self.focus == panel
    }
}

} // verus!
