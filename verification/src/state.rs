//! The shared aggregate state: a fixed mapping from events to a status
//! label, plus project tracking and the latest personality outputs.

use vstd::prelude::*;
use vstd::string::*;
use crate::events::{ClaudeEvent, EventV};
use crate::personality::types::{Context, PersonalityEvent, Sentiment};
use crate::text::str_eq;

verus! {

/// The status label each event maps to.
pub open spec fn state_label(ev: EventV) -> Seq<char> {
    match ev {
        EventV::SessionStart { .. } => "wake"@,
        EventV::UserMessage { .. } => "listening"@,
        EventV::Thinking { .. } => "thinking"@,
        EventV::ToolUse { .. } => "working"@,
        EventV::Talking { .. } => "talking"@,
        EventV::WaitingForTask { .. } => "sleepy"@,
        EventV::Stop { success, .. } => if success {
            "happy"@
        } else {
            "confused"@
        },
        EventV::Error { .. } => "confused"@,
    }
}

/// The presentation-ready aggregate, mutated in place for the process
/// lifetime. `active_projects` only ever grows; `focused_project` is set
/// once and never overwritten automatically; `context`, `mood` and
/// `comment` hold only the latest processed event's outputs.
#[derive(Debug)]
pub struct ClaudyState {
    pub current_state: String,
    pub active_projects: Vec<String>,
    pub focused_project: Option<String>,
    pub last_event: Option<ClaudeEvent>,
    pub context: Option<Context>,
    pub mood: Option<Sentiment>,
    pub comment: Option<String>,
}

impl ClaudyState {
    pub fn new() -> (r: Self)
        ensures
            r.current_state@ == "idle"@,
            r.active_projects.deep_view() == Seq::<Seq<char>>::empty(),
            r.focused_project is None,
            r.last_event is None,
            r.context is None,
            r.mood is None,
            r.comment is None,
    {
        let r = ClaudyState {
            current_state: String::from_str("idle"),
            active_projects: Vec::new(),
            focused_project: None,
            last_event: None,
            context: None,
            mood: None,
            comment: None,
        };
        proof {
            assert(r.active_projects.deep_view() =~= Seq::<Seq<char>>::empty());
        }
        r
    }

    /// Appends the project if unseen and claims focus if none is set;
    /// first writer wins, members are never removed.
    fn track_project(&mut self, project: &String)
        ensures
            final(self).current_state == old(self).current_state,
            final(self).last_event == old(self).last_event,
            final(self).context == old(self).context,
            final(self).mood == old(self).mood,
            final(self).comment == old(self).comment,
            final(self).active_projects.deep_view() == if old(self).active_projects.deep_view().contains(project@) {
                old(self).active_projects.deep_view()
            } else {
                old(self).active_projects.deep_view().push(project@)
            },
            final(self).focused_project.deep_view() == if old(self).focused_project is Some {
                old(self).focused_project.deep_view()
            } else {
                Some(project@)
            },
            old(self).focused_project is Some ==> final(self).focused_project == old(
                self,
            ).focused_project,
    {
        let n = self.active_projects.len();
        let mut i: usize = 0;
        let mut present = false;
        while i < n
            invariant
                i <= n,
                n == self.active_projects@.len(),
                present == exists|j: int|
                    0 <= j < i && self.active_projects.deep_view()[j] == project@,
            decreases n - i,
        {
            if str_eq(self.active_projects[i].as_str(), project.as_str()) {
                present = true;
                proof {
                    assert(self.active_projects.deep_view()[i as int] == project@);
                }
            }
            i += 1;
        }
        if !present {
            let ghost prev = self.active_projects.deep_view();
            self.active_projects.push(project.clone());
            proof {
                assert(self.active_projects.deep_view() =~= prev.push(project@));
            }
        }
        if self.focused_project.is_none() {
            self.focused_project = Some(project.clone());
        }
    }

    /// Applies one event: track the owning project (except for errors),
    /// move to the event's status label, and remember the event.
    pub fn handle_event(&mut self, event: ClaudeEvent)
        ensures
            final(self).last_event == Some(event),
            final(self).current_state@ == state_label(event@),
            final(self).context == old(self).context,
            final(self).mood == old(self).mood,
            final(self).comment == old(self).comment,
            event@ is Error ==> final(self).active_projects == old(self).active_projects && final(self).focused_project == old(self).focused_project,
            !(event@ is Error) ==> final(self).active_projects.deep_view() == (if old(self).active_projects.deep_view().contains(event.spec_project()) {
                old(self).active_projects.deep_view()
            } else {
                old(self).active_projects.deep_view().push(event.spec_project())
            }) && final(self).focused_project.deep_view() == (if old(self).focused_project
                is Some {
                old(self).focused_project.deep_view()
            } else {
                Some(event.spec_project())
            }),
            old(self).active_projects.deep_view().is_prefix_of(
                final(self).active_projects.deep_view(),
            ),
            old(self).focused_project is Some ==> final(self).focused_project == old(self).focused_project,
    {
        match &event {
            ClaudeEvent::SessionStart { project } => {
                self.track_project(project);
                self.current_state = String::from_str("wake");
            },
            ClaudeEvent::UserMessage { project } => {
                self.track_project(project);
                self.current_state = String::from_str("listening");
            },
            ClaudeEvent::Thinking { project } => {
                self.track_project(project);
                self.current_state = String::from_str("thinking");
            },
            ClaudeEvent::ToolUse { project, .. } => {
                self.track_project(project);
                self.current_state = String::from_str("working");
            },
            ClaudeEvent::Talking { project } => {
                self.track_project(project);
                self.current_state = String::from_str("talking");
            },
            ClaudeEvent::WaitingForTask { project } => {
                self.track_project(project);
                self.current_state = String::from_str("sleepy");
            },
            ClaudeEvent::Stop { project, success } => {
                self.track_project(project);
                if *success {
                    self.current_state = String::from_str("happy");
                } else {
                    self.current_state = String::from_str("confused");
                }
            },
            ClaudeEvent::Error { .. } => {
                self.current_state = String::from_str("confused");
            },
        }
        proof {
            if !(event@ is Error) {
                assert(old(self).active_projects.deep_view().is_prefix_of(
                    self.active_projects.deep_view(),
                ));
            }
        }
        self.last_event = Some(event);
    }

    /// Applies a personality-augmented event: the latest context, mood and
    /// comment replace the previous ones, then the base event is handled.
    pub fn handle_personality_event(&mut self, event: PersonalityEvent)
        ensures
            final(self).context == event.context,
            final(self).mood == event.mood,
            final(self).comment == event.comment,
            final(self).last_event == Some(event.base_event),
            final(self).current_state@ == state_label(event.base_event@),
            old(self).active_projects.deep_view().is_prefix_of(
                final(self).active_projects.deep_view(),
            ),
            old(self).focused_project is Some ==> final(self).focused_project == old(self).focused_project,
            !(event.base_event@ is Error) ==> final(self).active_projects.deep_view() == (if old(self).active_projects.deep_view().contains(event.base_event.spec_project()) {
                old(self).active_projects.deep_view()
            } else {
                old(self).active_projects.deep_view().push(event.base_event.spec_project())
            }),
    {
        let PersonalityEvent { base_event, context, mood, comment } = event;
        self.context = context;
        self.mood = mood;
        self.comment = comment;
        self.handle_event(base_event);
    }
}

} // verus!
