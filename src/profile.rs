//! The view of one profile: its device list, or one device in detail.
pub mod detail;

use vstd::prelude::*;

verus! {

#[derive(Debug, Clone)]
pub enum Message {
    Back,
    /// Show the device with this id in detail.
    SelectDevice(String),
    /// A message of the device detail view.
    UpdateDevice(detail::Message),
}

/// Which device of the profile, if any, is shown in detail.
#[derive(Debug)]
pub struct Profile {
    selected_device: Option<String>,
}

/// What the profile view hands up to the application.
pub enum Action {
    /// Go back to the list of profiles.
    Back,
    /// Set `auto_connect` of the device `device_id` in the model.
    SetAutoConnect { device_id: String, enabled: bool },
}

impl View for Profile {
    type V = Option<Seq<char>>;

    /// The id of the device shown in detail.
    closed spec fn view(&self) -> Option<Seq<char>> {
        match self.selected_device {
            Some(id) => Some(id@),
            None => None,
        }
    }
}

/// The selected device after `message`, and what goes up to the application.
pub open spec fn update_spec(selected: Option<Seq<char>>, message: Message) -> (Option<Seq<char>>, Option<Action>) {
    match message {
        Message::Back => match selected {
            Some(_) => (None, None),
            None => (None, Some(Action::Back)),
        },
        Message::SelectDevice(id) => (Some(id@), None),
        Message::UpdateDevice(detail::Message::ToggleAutoConnect(device_id, enabled)) => (
            selected,
            Some(Action::SetAutoConnect { device_id, enabled }),
        ),
    }
}

impl Default for Profile {
    /// No device selected: the device list is shown.
    fn default() -> (r: Profile)
        ensures
            r@ is None,
    {
        Profile { selected_device: None }
    }
}

impl Profile {
    /// Handles `message`. Going back from a device returns to the device list;
    /// going back from the list, and every toggle, is handed up as an action.
    pub fn update(&mut self, message: Message) -> (r: Option<Action>)
        ensures
            (final(self)@, r) == update_spec(old(self)@, message),
    {
        match message {
            Message::Back => {
                if self.selected_device.is_some() {
                    self.selected_device = None;
                    None
                } else {
                    Some(Action::Back)
                }
            },
            Message::SelectDevice(device_id) => {
                self.selected_device = Some(device_id);
                None
            },
            Message::UpdateDevice(detail::Message::ToggleAutoConnect(device_id, enabled)) => {
                Some(Action::SetAutoConnect { device_id, enabled })
            },
        }
    }

    /// The id of the device shown in detail, if any.
    pub fn selected_device(&self) -> (r: Option<&String>)
        ensures
            match r {
                Some(id) => self@ == Some(id@),
                None => self@ is None,
            },
    {
        match &self.selected_device {
            Some(id) => Some(id),
            None => None,
        }
    }
}

} // verus!
