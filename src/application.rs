//! The root of the application: loading, then the choice of a profile, and
//! the one place where the model is changed.
use crate::model::{committed, has_device, is_first_match, Model};
use crate::profile::detail;
use crate::profile;
use crate::profile::{update_spec, Action};
use crate::selector;
use vstd::prelude::*;

verus! {

#[derive(Debug)]
pub enum Message {
    /// The load of the profiles has finished.
    LoadProfiles(Result<Model, String>),
    Profile(profile::Message),
    Selector(selector::Message),
}

pub struct App {
    screen: Screen,
}

pub enum Screen {
    Loading,
    Loaded { model: Model, selected: Option<usize>, viewer: profile::Profile },
}

impl View for App {
    type V = Screen;

    /// The current screen.
    closed spec fn view(&self) -> Screen {
        self.screen
    }
}

/// `after` is the screen once the profile view, in state `viewer`, has handled
/// `message` on the screen `Loaded { model, selected, viewer }`.
pub open spec fn profile_step(
    model: Model,
    selected: Option<usize>,
    viewer: profile::Profile,
    message: profile::Message,
    after: Screen,
) -> bool {
    let (next_device, action) = update_spec(viewer@, message);
    &&& after matches Screen::Loaded { model: m2, selected: s2, viewer: v2 }
    &&& v2@ == next_device
    &&& match action {
        None => m2 == model && s2 == selected,
        Some(Action::Back) => m2 == model && s2 is None,
        Some(Action::SetAutoConnect { device_id, enabled }) => {
            &&& s2 == selected
            &&& m2.next_id() == model.next_id()
            &&& (model.wf() ==> m2.wf())
            &&& committed(model@, m2@, device_id@, enabled)
        },
    }
}

/// Toggling a device in its detail view, handed through the profile view to
/// the application, sets that device's `auto_connect` to the toggle's value
/// and leaves every other device as it was, when no other device of the
/// model has the same id.
pub proof fn lemma_toggle_round_trip(
    model: Model,
    selected: Option<usize>,
    viewer: profile::Profile,
    k: usize,
    i: int,
    enabled: bool,
    after: Screen,
)
    requires
        model@.contains_key(k),
        0 <= i < model@[k].devices@.len(),
        forall|k2: usize, j: int|
            model@.contains_key(k2) && 0 <= j < model@[k2].devices@.len() && (k2 != k || j != i)
                ==> #[trigger] model@[k2].devices@[j].id@ != model@[k].devices@[i].id@,
        profile_step(
            model,
            selected,
            viewer,
            profile::Message::UpdateDevice(
                detail::Message::ToggleAutoConnect(model@[k].devices@[i].id, enabled),
            ),
            after,
        ),
    ensures
        after matches Screen::Loaded { model: m2, selected: s2, viewer: v2 } && {
            &&& s2 == selected
            &&& v2@ == viewer@
            &&& m2@.dom() == model@.dom()
            &&& m2@[k].devices@[i] == model@[k].devices@[i].with_auto_connect(enabled)
            &&& m2@[k].devices@[i].settings.auto_connect == enabled
            &&& forall|k2: usize, j: int|
                model@.contains_key(k2) && 0 <= j < model@[k2].devices@.len() && (k2 != k || j != i)
                    ==> #[trigger] m2@[k2].devices@[j] == model@[k2].devices@[j]
        },
{
    let id = model@[k].devices@[i].id@;
    assert(is_first_match(model@, id, k, i)) by {
        assert forall|k2: usize| #[trigger] model@.contains_key(k2) && k2 < k
            implies !has_device(model@[k2].devices@, id) by {
            if has_device(model@[k2].devices@, id) {
                let j = choose|j: int| 0 <= j < model@[k2].devices@.len() && model@[k2].devices@[j].id@ == id;
                assert(model@[k2].devices@[j].id@ != id);
            }
        }
        assert forall|j: int| 0 <= j < i implies model@[k].devices@[j].id@ != id by {
            assert(model@[k].devices@[j].id@ != model@[k].devices@[i].id@);
        }
    }
    assert forall|k2: usize, j: int|
        model@.contains_key(k2) && 0 <= j < model@[k2].devices@.len() && (k2 != k || j != i)
        implies !is_first_match(model@, id, k2, j) by {
        assert(model@[k2].devices@[j].id@ != id);
    }
}

impl App {
    /// The application while the profiles load.
    pub fn new() -> (r: App)
        ensures
            r@ is Loading,
    {
        App { screen: Screen::Loading }
    }

    /// The current screen.
    pub fn screen(&self) -> (r: &Screen)
        ensures
            *r == self@,
    {
        &self.screen
    }

    /// Handles `message`. A finished load shows its profiles; a failed one
    /// leaves the application loading, with no retry, and a load that finishes
    /// after the profiles are shown changes nothing. A profile is chosen only
    /// while none is; the profile view's actions go back to the list or change
    /// a device in the model, which only this function does.
    pub fn update(&mut self, message: Message)
        ensures
            match message {
                Message::LoadProfiles(Ok(model)) => if old(self)@ is Loading {
                    final(self)@ matches Screen::Loaded { model: m, selected, viewer }
                        && m == model && selected is None && viewer@ is None
                } else {
                    final(self)@ == old(self)@
                },
                Message::LoadProfiles(Err(_)) => final(self)@ == old(self)@,
                Message::Selector(selector::Message::Select(id)) => match old(self)@ {
                    Screen::Loaded { model, selected: None, viewer } => final(self)@ == (Screen::Loaded {
                        model,
                        selected: Some(id),
                        viewer,
                    }),
                    _ => final(self)@ == old(self)@,
                },
                Message::Profile(msg) => match old(self)@ {
                    Screen::Loading => final(self)@ == old(self)@,
                    Screen::Loaded { model, selected, viewer } => profile_step(
                        model,
                        selected,
                        viewer,
                        msg,
                        final(self)@,
                    ),
                },
            },
    {
        match message {
            Message::LoadProfiles(Ok(model)) => {
                if let Screen::Loading = self.screen {
                    self.screen = Screen::Loaded {
                        model,
                        selected: None,
                        viewer: profile::Profile::default(),
                    };
                }
            },
            Message::LoadProfiles(Err(_)) => {},
            Message::Selector(selector::Message::Select(id)) => {
                if let Screen::Loaded { selected, .. } = &mut self.screen {
                    if selected.is_none() {
                        *selected = Some(id);
                    }
                }
            },
            Message::Profile(msg) => {
                if let Screen::Loaded { model, selected, viewer } = &mut self.screen {
                    match viewer.update(msg) {
                        None => {},
                        Some(Action::Back) => {
                            *selected = None;
                        },
                        Some(Action::SetAutoConnect { device_id, enabled }) => {
                            model.set_auto_connect(&device_id, enabled);
                        },
                    }
                }
            },
        }
    }
}

} // verus!
