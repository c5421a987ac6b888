use devices::model::{Device, DeviceSettings, DeviceStatus, Profile, ProfileSettings, Tunnel};
use devices::profile::{self, detail, Action};
use devices::selector;
use devices::{App, Message, Model, Screen};
use std::collections::BTreeMap;

fn loaded_app() -> App {
    let mut app = App::new();
    app.update(Message::LoadProfiles(Ok(Model::default())));
    app
}

fn model_of(app: &App) -> &Model {
    match app.screen() {
        Screen::Loaded { model, .. } => model,
        Screen::Loading => panic!("still loading"),
    }
}

fn selected_of(app: &App) -> Option<usize> {
    match app.screen() {
        Screen::Loaded { selected, .. } => *selected,
        Screen::Loading => panic!("still loading"),
    }
}

fn settings(model: &Model) -> Vec<(usize, String, bool, bool)> {
    let mut out = Vec::new();
    for (k, p) in model.profiles.iter() {
        for d in &p.devices {
            out.push((*k, d.id.clone(), d.settings.auto_connect, d.settings.remote_access));
        }
    }
    out
}

fn device(id: &str, auto_connect: bool) -> Device {
    Device {
        id: id.to_string(),
        name: id.to_uppercase(),
        status: DeviceStatus::Online,
        settings: DeviceSettings { auto_connect, remote_access: false },
    }
}

fn profile_with(name: &str, devices: Vec<Device>) -> Profile {
    Profile {
        id: 99,
        name: name.to_string(),
        devices,
        tunnels: vec![],
        settings: ProfileSettings { auto_login: false, default_tunnel: None },
    }
}

#[test]
fn new_app_is_loading() {
    let app = App::new();
    assert!(matches!(app.screen(), Screen::Loading));
}

#[test]
fn load_success_shows_profiles() {
    let app = loaded_app();
    match app.screen() {
        Screen::Loaded { model, selected, viewer } => {
            assert_eq!(*selected, None);
            assert_eq!(viewer.selected_device(), None);
            assert_eq!(model.profiles.len(), 2);
            assert_eq!(model.profiles[&0].name, "Profile 1");
            assert_eq!(model.profiles[&1].name, "Profile 2");
        }
        Screen::Loading => panic!("expected the profiles"),
    }
}

#[test]
fn load_success_keeps_the_given_model() {
    let mut model = Model::new();
    model.add_profile(profile_with("only", vec![device("a", true)]));
    let mut app = App::new();
    app.update(Message::LoadProfiles(Ok(model)));
    let m = model_of(&app);
    assert_eq!(m.profiles.len(), 1);
    assert_eq!(m.profiles[&0].name, "only");
    assert_eq!(settings(m), vec![(0, "a".to_string(), true, false)]);
}

#[test]
fn load_failure_stays_loading() {
    let mut app = App::new();
    app.update(Message::LoadProfiles(Err("unreachable".to_string())));
    assert!(matches!(app.screen(), Screen::Loading));
}

#[test]
fn second_load_is_ignored() {
    let mut app = loaded_app();
    app.update(Message::Selector(selector::Message::Select(1)));
    app.update(Message::LoadProfiles(Ok(Model::new())));
    assert_eq!(model_of(&app).profiles.len(), 2);
    assert_eq!(selected_of(&app), Some(1));
}

#[test]
fn select_while_loading_is_ignored() {
    let mut app = App::new();
    app.update(Message::Selector(selector::Message::Select(0)));
    assert!(matches!(app.screen(), Screen::Loading));
}

#[test]
fn select_sets_the_profile() {
    let mut app = loaded_app();
    app.update(Message::Selector(selector::Message::Select(1)));
    assert_eq!(selected_of(&app), Some(1));
}

#[test]
fn select_ignored_while_a_profile_is_selected() {
    let mut app = loaded_app();
    app.update(Message::Selector(selector::Message::Select(5)));
    assert_eq!(selected_of(&app), Some(5));
    app.update(Message::Selector(selector::Message::Select(7)));
    assert_eq!(selected_of(&app), Some(5));
}

#[test]
fn back_from_device_detail_stays_in_profile() {
    let mut viewer = profile::Profile::default();
    assert!(viewer.update(profile::Message::SelectDevice("device1".to_string())).is_none());
    assert_eq!(viewer.selected_device(), Some(&"device1".to_string()));
    let action = viewer.update(profile::Message::Back);
    assert!(action.is_none());
    assert_eq!(viewer.selected_device(), None);
}

#[test]
fn back_from_device_list_goes_up() {
    let mut viewer = profile::Profile::default();
    let action = viewer.update(profile::Message::Back);
    assert!(matches!(action, Some(Action::Back)));
    assert_eq!(viewer.selected_device(), None);
}

#[test]
fn toggle_is_forwarded_verbatim() {
    let mut viewer = profile::Profile::default();
    viewer.update(profile::Message::SelectDevice("device3".to_string()));
    let action = viewer.update(profile::Message::UpdateDevice(detail::Message::ToggleAutoConnect(
        "device3".to_string(),
        false,
    )));
    match action {
        Some(Action::SetAutoConnect { device_id, enabled }) => {
            assert_eq!(device_id, "device3");
            assert!(!enabled);
        }
        _ => panic!("expected SetAutoConnect"),
    }
    assert_eq!(viewer.selected_device(), Some(&"device3".to_string()));
}

#[test]
fn detail_toggle_carries_the_new_value() {
    let d = device("dev", true);
    match detail::toggle(&d, false) {
        detail::Message::ToggleAutoConnect(id, enabled) => {
            assert_eq!(id, "dev");
            assert!(!enabled);
        }
    }
    match detail::toggle(&d, true) {
        detail::Message::ToggleAutoConnect(id, enabled) => {
            assert_eq!(id, "dev");
            assert!(enabled);
        }
    }
}

#[test]
fn profile_back_in_app_returns_to_list() {
    let mut app = loaded_app();
    app.update(Message::Selector(selector::Message::Select(0)));
    app.update(Message::Profile(profile::Message::SelectDevice("device1".to_string())));
    app.update(Message::Profile(profile::Message::Back));
    assert_eq!(selected_of(&app), Some(0));
    app.update(Message::Profile(profile::Message::Back));
    assert_eq!(selected_of(&app), None);
}

#[test]
fn toggle_round_trip_sets_auto_connect() {
    let mut app = loaded_app();
    let before = settings(model_of(&app));
    assert!(!model_of(&app).profiles[&0].devices[1].settings.auto_connect);
    app.update(Message::Selector(selector::Message::Select(0)));
    app.update(Message::Profile(profile::Message::SelectDevice("device2".to_string())));
    let toggle = detail::toggle(&model_of(&app).profiles[&0].devices[1], true);
    app.update(Message::Profile(profile::Message::UpdateDevice(toggle)));
    let after = settings(model_of(&app));
    assert_eq!(after.len(), before.len());
    for (b, a) in before.iter().zip(after.iter()) {
        if b.1 == "device2" {
            assert!(a.2);
            assert_eq!(a.3, b.3);
        } else {
            assert_eq!(a, b);
        }
    }
    assert_eq!(selected_of(&app), Some(0));
}

#[test]
fn toggle_unknown_device_changes_nothing() {
    let mut app = loaded_app();
    let before = settings(model_of(&app));
    app.update(Message::Profile(profile::Message::UpdateDevice(
        detail::Message::ToggleAutoConnect("nonexistent".to_string(), true),
    )));
    assert_eq!(settings(model_of(&app)), before);
}

#[test]
fn select_unknown_device_is_not_found() {
    let mut viewer = profile::Profile::default();
    let action = viewer.update(profile::Message::SelectDevice("nonexistent".to_string()));
    assert!(action.is_none());
    assert_eq!(viewer.selected_device(), Some(&"nonexistent".to_string()));
    let model = Model::default();
    let p = model.get_profile(0).unwrap();
    assert!(p.find_device(viewer.selected_device().unwrap()).is_none());
}

#[test]
fn commit_stops_at_first_match_across_profiles() {
    let mut model = Model::new();
    model.add_profile(profile_with("first", vec![device("x", false), device("x", false)]));
    model.add_profile(profile_with("second", vec![device("x", false)]));
    model.set_auto_connect(&"x".to_string(), true);
    assert_eq!(
        settings(&model),
        vec![
            (0, "x".to_string(), true, false),
            (0, "x".to_string(), false, false),
            (1, "x".to_string(), false, false),
        ]
    );
}

#[test]
fn commit_reaches_later_profiles() {
    let mut model = Model::default();
    model.set_auto_connect(&"device4".to_string(), true);
    assert!(model.profiles[&1].devices[1].settings.auto_connect);
    model.set_auto_connect(&"device1".to_string(), false);
    assert!(!model.profiles[&0].devices[0].settings.auto_connect);
    assert!(model.profiles[&0].devices[0].settings.auto_connect == false);
    assert!(model.profiles[&1].devices[0].settings.auto_connect);
}

#[test]
fn add_profile_assigns_increasing_ids() {
    let mut model = Model::new();
    assert_eq!(model.add_profile(profile_with("a", vec![])), 0);
    assert_eq!(model.add_profile(profile_with("b", vec![])), 1);
    assert_eq!(model.profiles[&0].id, 0);
    assert_eq!(model.profiles[&1].id, 1);
    assert_eq!(model.profiles[&1].name, "b");
}

#[test]
fn get_profile_finds_only_existing_ids() {
    let model = Model::default();
    assert_eq!(model.get_profile(1).unwrap().name, "Profile 2");
    assert!(model.get_profile(2).is_none());
}

#[test]
fn find_device_returns_first_with_id() {
    let mut a = device("dup", true);
    a.name = "first".to_string();
    let mut b = device("dup", false);
    b.name = "second".to_string();
    let p = profile_with("p", vec![device("other", false), a, b]);
    assert_eq!(p.find_device(&"dup".to_string()).unwrap().name, "first");
    assert_eq!(p.find_device(&"other".to_string()).unwrap().name, "OTHER");
    assert!(p.find_device(&"none".to_string()).is_none());
}

#[test]
fn default_model_holds_the_sample_profiles() {
    let model = Model::default();
    let p0 = &model.profiles[&0];
    assert_eq!(p0.id, 0);
    assert!(p0.settings.auto_login);
    assert_eq!(p0.settings.default_tunnel.as_deref(), Some("tunnel1"));
    assert_eq!(p0.devices[0].id, "device1");
    assert_eq!(p0.devices[0].status, DeviceStatus::Online);
    assert_eq!(p0.devices[1].settings, DeviceSettings { auto_connect: false, remote_access: true });
    assert_eq!(p0.tunnels.len(), 2);
    assert!(p0.tunnels[0].connected);
    let p1 = &model.profiles[&1];
    assert_eq!(p1.devices[0].id, "device3");
    assert_eq!(p1.devices[0].status, DeviceStatus::Connecting);
    assert_eq!(p1.settings.default_tunnel.as_deref(), Some("tunnel3"));
    assert_eq!(p1.tunnels[1].name, "Tunnel 4");
    let t: &Tunnel = &p1.tunnels[0];
    assert_eq!(t.id, "tunnel3");
}

#[test]
fn profile_ids_ascend_whatever_the_insertion_order() {
    let mut profiles = BTreeMap::new();
    for id in [7usize, 2, 9, 0, 4] {
        profiles.insert(id, profile_with("p", vec![]));
    }
    assert_eq!(selector::profile_ids(&profiles), vec![0, 2, 4, 7, 9]);
    assert_eq!(selector::profile_ids(&BTreeMap::new()), Vec::<usize>::new());
}

#[test]
fn profile_ids_of_sample_model() {
    let model = Model::default();
    assert_eq!(selector::profile_ids(&model.profiles), vec![0, 1]);
}
