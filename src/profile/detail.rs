//! The detail view of one device: turns the toggle into a message.
use crate::model::Device;
use vstd::prelude::*;

verus! {

#[derive(Debug, Clone)]
pub enum Message {
    ToggleAutoConnect(String, bool),
}

/// The message sent when the auto-connect toggle of `device` is switched to
/// `enabled`. The new value comes from the toggle, not from the device.
pub fn toggle(device: &Device, enabled: bool) -> (r: Message)
    ensures
        r == Message::ToggleAutoConnect(device.id, enabled),
{
    Message::ToggleAutoConnect(device.id.clone(), enabled)
}

} // verus!
