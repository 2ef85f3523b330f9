use vol_limiter::control::{
    BuiltIn, ControlError, ControlMsg, ControlState, Effect, FollowUp, InputType,
};

fn devices(names: &[&str]) -> Vec<String> {
    names.iter().map(|n| n.to_string()).collect()
}

fn fresh() -> ControlState {
    ControlState::init(devices(&["Speakers", "Headphones"]), 35)
}

#[test]
fn init_state() {
    let s = fresh();
    assert!(!s.limiter && !s.limiter_running && !s.scanner_running);
    assert_eq!(s.percent, 20);
    assert_eq!(s.percent_str, "20");
    assert_eq!(s.volume, 35);
    assert_eq!(s.vol_str, "35");
    assert_eq!(s.all_devices, devices(&["", "Speakers", "Headphones"]));
    assert_eq!(s.devices, s.all_devices);
    assert_eq!(s.device, Some(String::new()));
    assert!(!s.autocheck && s.autolimiter && s.auto_autolimiter);
    assert_eq!(s.error, None);
    assert_eq!(s.error_length, 0);
    assert_eq!(s.input_vol, Some(InputType::Slider));
    assert_eq!(s.sel_lim, Some(BuiltIn::Twenty));
}

#[test]
fn init_rejects_out_of_range_reading() {
    let s = ControlState::init(Vec::new(), 130);
    assert_eq!(s.volume, 0);
    assert_eq!(s.vol_str, "0");
}

#[test]
fn enable_limit_spawns_with_committed_limit() {
    let mut s = fresh();
    let eff = s.update(ControlMsg::EnableLimit(55));
    assert_eq!(eff, vec![Effect::StartLimiter(20)]);
    assert!(s.limiter && s.limiter_running);
    // The shown volume drops to the ceiling when the reading is above it.
    assert_eq!(s.volume, 20);
    assert_eq!(s.vol_str, "20");
}

#[test]
fn enable_limit_keeps_lower_reading() {
    let mut s = fresh();
    let eff = s.update(ControlMsg::EnableLimit(5));
    assert_eq!(eff, vec![Effect::StartLimiter(20)]);
    assert_eq!(s.volume, 5);
}

#[test]
fn enable_limit_commits_pending_text_first() {
    let mut s = fresh();
    s.update(ControlMsg::ChangePercent("50".to_string(), true));
    let eff = s.update(ControlMsg::EnableLimit(70));
    assert_eq!(
        eff,
        vec![
            Effect::Requeue(FollowUp::ConfirmPercent(true)),
            Effect::Requeue(FollowUp::EnableLimit),
        ]
    );
    assert!(!s.limiter_running);
    assert_eq!(s.volume, 70);
}

#[test]
fn enable_limit_noop_while_running() {
    let mut s = fresh();
    s.update(ControlMsg::EnableLimit(10));
    let eff = s.update(ControlMsg::EnableLimit(90));
    assert_eq!(eff, Vec::new());
    assert_eq!(s.volume, 10);
}

#[test]
fn disable_limit_stops_running_task() {
    let mut s = fresh();
    s.update(ControlMsg::EnableLimit(10));
    let eff = s.update(ControlMsg::DisableLimit);
    assert_eq!(eff, vec![Effect::StopLimiter]);
    assert!(!s.limiter && !s.limiter_running);
    let eff = s.update(ControlMsg::DisableLimit);
    assert_eq!(eff, Vec::new());
}

#[test]
fn change_percent_flags_bad_limit_text() {
    let mut s = fresh();
    let eff = s.update(ControlMsg::ChangePercent("abc".to_string(), true));
    assert_eq!(eff, Vec::new());
    assert_eq!(s.percent_str, "abc");
    assert_eq!(s.error, Some(ControlError::ParseError));
    assert_eq!(s.error_length, 0);

    s.update(ControlMsg::ChangePercent("42".to_string(), true));
    assert_eq!(s.error, None);
}

#[test]
fn change_percent_flags_bad_volume_text() {
    let mut s = fresh();
    let eff = s.update(ControlMsg::ChangePercent("101".to_string(), false));
    assert_eq!(eff, Vec::new());
    assert_eq!(s.vol_str, "101");
    assert_eq!(s.error, Some(ControlError::ParseVolError));
}

#[test]
fn confirm_percent_commits_and_selects_preset() {
    let mut s = fresh();
    s.update(ControlMsg::ChangePercent("50".to_string(), true));
    let eff = s.update(ControlMsg::ConfirmPercent(true));
    assert_eq!(eff, Vec::new());
    assert_eq!(s.percent, 50);
    assert_eq!(s.percent_str, "50");
    assert_eq!(s.sel_lim, Some(BuiltIn::Fifty));
}

#[test]
fn confirm_percent_at_hundred_is_accepted() {
    let mut s = fresh();
    s.update(ControlMsg::ChangePercent("100".to_string(), true));
    s.update(ControlMsg::ConfirmPercent(true));
    assert_eq!(s.percent, 100);
    assert_eq!(s.percent_str, "100");
    assert_eq!(s.sel_lim, Some(BuiltIn::Custom));
    assert_eq!(s.error, None);
}

#[test]
fn confirm_percent_rejects_above_hundred() {
    // A commit that parses to a value above 100 is rejected like a failed
    // parse: the prior limit is retained and the parse error raised.
    let mut s = fresh();
    s.update(ControlMsg::ChangePercent("150".to_string(), true));
    s.update(ControlMsg::ConfirmPercent(true));
    assert_eq!(s.percent, 20);
    assert_eq!(s.percent_str, "20");
    assert_eq!(s.sel_lim, Some(BuiltIn::Twenty));
    assert_eq!(s.error, Some(ControlError::ParseError));
    assert_eq!(s.error_length, 0);
}

#[test]
fn confirm_percent_keeps_prior_on_bad_text() {
    let mut s = fresh();
    s.update(ControlMsg::ChangePercent("x9".to_string(), true));
    s.update(ControlMsg::ConfirmPercent(true));
    assert_eq!(s.percent, 20);
    assert_eq!(s.percent_str, "20");
    assert_eq!(s.error, Some(ControlError::ParseError));
}

#[test]
fn confirm_percent_while_armed_replays_around_teardown() {
    let mut s = fresh();
    s.update(ControlMsg::EnableLimit(10));
    let eff = s.update(ControlMsg::ConfirmPercent(true));
    assert_eq!(
        eff,
        vec![
            Effect::Requeue(FollowUp::DisableLimit),
            Effect::Requeue(FollowUp::ConfirmPercent(true)),
            Effect::Requeue(FollowUp::EnableLimit),
        ]
    );
}

#[test]
fn confirm_volume_writes_backend_and_caps_at_limit() {
    let mut s = fresh();
    s.update(ControlMsg::EnableLimit(10));
    s.update(ControlMsg::ChangePercent("90".to_string(), false));
    let eff = s.update(ControlMsg::ConfirmPercent(false));
    // With the limiter armed the committed volume is capped at the limit.
    assert_eq!(s.volume, 20);
    assert_eq!(s.vol_str, "20");
    assert_eq!(eff, vec![Effect::SetBackendVolume(20)]);
}

#[test]
fn confirm_volume_rejects_above_hundred_unarmed() {
    // Unarmed, a volume commit above 100 is rejected with the prior value
    // retained and the parse error raised; the retained volume is still
    // written back, as any volume commit is.
    let mut s = fresh();
    s.update(ControlMsg::ChangePercent("250".to_string(), false));
    let eff = s.update(ControlMsg::ConfirmPercent(false));
    assert_eq!(s.volume, 35);
    assert_eq!(s.vol_str, "35");
    assert_eq!(s.error, Some(ControlError::ParseError));
    assert_eq!(eff, vec![Effect::SetBackendVolume(35)]);
}

#[test]
fn change_device_empty_selects_none() {
    let mut s = fresh();
    s.update(ControlMsg::ChangeDevice("Speakers".to_string()));
    assert_eq!(s.device, Some("Speakers".to_string()));
    s.update(ControlMsg::ChangeDevice(String::new()));
    assert_eq!(s.device, None);
}

#[test]
fn update_device_list_merges_on_count_change() {
    let mut s = fresh();
    // Three offered; the shared snapshot holds two, one of them new.
    let eff = s.update(ControlMsg::UpdateDeviceList(
        devices(&["Speakers", "Monitor"]),
        devices(&["Speakers", "Monitor"]),
    ));
    assert_eq!(eff, Vec::new());
    assert_eq!(s.all_devices, devices(&["", "Speakers", "Headphones", "Monitor"]));
    assert_eq!(s.devices, devices(&["Speakers", "Monitor"]));
}

#[test]
fn update_device_list_ignores_same_count() {
    let mut s = fresh();
    let before = s.devices.clone();
    let eff = s.update(ControlMsg::UpdateDeviceList(
        devices(&["A", "B", "C"]),
        devices(&["A", "B", "C"]),
    ));
    assert_eq!(eff, Vec::new());
    assert_eq!(s.devices, before);
    assert_eq!(s.all_devices, devices(&["", "Speakers", "Headphones"]));
}

#[test]
fn auto_limiter_arms_on_present_device() {
    let mut s = fresh();
    s.update(ControlMsg::ChangeDevice("Speakers".to_string()));
    let eff = s.update(ControlMsg::AutoLimiter);
    assert_eq!(eff, vec![Effect::Requeue(FollowUp::EnableLimit)]);
}

#[test]
fn auto_limiter_disarms_on_missing_device() {
    let mut s = fresh();
    s.update(ControlMsg::ChangeDevice("Gone".to_string()));
    let eff = s.update(ControlMsg::AutoLimiter);
    assert_eq!(eff, vec![Effect::Requeue(FollowUp::DisableLimit)]);
    assert_eq!(s.device, Some(String::new()));
}

#[test]
fn auto_limiter_respects_switches() {
    let mut s = fresh();
    s.update(ControlMsg::ChangeDevice("Speakers".to_string()));
    s.update(ControlMsg::ChangeAutoLimiter(false));
    let eff = s.update(ControlMsg::AutoLimiter);
    assert_eq!(eff, Vec::new());
}

#[test]
fn auto_check_spawns_and_stops_scanner() {
    let mut s = fresh();
    let eff = s.update(ControlMsg::AutoCheck(true));
    assert_eq!(eff, vec![Effect::StartScanner]);
    assert!(s.autocheck && s.scanner_running);
    let eff = s.update(ControlMsg::AutoCheck(true));
    assert_eq!(eff, Vec::new());
    let eff = s.update(ControlMsg::AutoCheck(false));
    assert_eq!(eff, vec![Effect::StopScanner]);
    assert!(!s.autocheck && !s.scanner_running);
}

#[test]
fn scanner_join_failure_reports_update_error() {
    let mut s = fresh();
    s.on_scanner_stopped(true);
    assert_eq!(s.error, None);
    s.on_scanner_stopped(false);
    assert_eq!(s.error, Some(ControlError::UpdateError));
    assert_eq!(s.error_length, 0);
}

#[test]
fn change_by_one_steps_limit() {
    let mut s = fresh();
    let eff = s.update(ControlMsg::ChangeByOne(true, true));
    assert_eq!(eff, Vec::new());
    assert_eq!(s.percent, 21);
    assert_eq!(s.percent_str, "21");
    assert_eq!(s.sel_lim, Some(BuiltIn::Custom));
    s.update(ControlMsg::ChangeByOne(false, true));
    assert_eq!(s.percent, 20);
    assert_eq!(s.sel_lim, Some(BuiltIn::Twenty));
}

#[test]
fn change_by_one_up_at_hundred_steps_down() {
    // Stepping up at 100 falls through to the step-down branch. Kept
    // behavior.
    let mut s = fresh();
    s.update(ControlMsg::ChangePercent("100".to_string(), true));
    s.update(ControlMsg::ConfirmPercent(true));
    assert_eq!(s.percent, 100);
    s.update(ControlMsg::ChangeByOne(true, true));
    assert_eq!(s.percent, 99);
}

#[test]
fn change_by_one_volume_blocked_at_limit() {
    let mut s = fresh();
    s.update(ControlMsg::EnableLimit(20));
    assert_eq!(s.volume, 20);
    let eff = s.update(ControlMsg::ChangeByOne(true, false));
    // At the ceiling with the limiter armed, the step up does nothing but
    // the volume is still written back.
    assert_eq!(s.volume, 20);
    assert_eq!(eff, vec![Effect::SetBackendVolume(20)]);
    let eff = s.update(ControlMsg::ChangeByOne(false, false));
    assert_eq!(s.volume, 19);
    assert_eq!(eff, vec![Effect::SetBackendVolume(19)]);
}

#[test]
fn change_by_one_uncommitted_replays_commit() {
    let mut s = fresh();
    s.update(ControlMsg::ChangePercent("33".to_string(), true));
    let eff = s.update(ControlMsg::ChangeByOne(true, true));
    assert_eq!(
        eff,
        vec![
            Effect::Requeue(FollowUp::ConfirmPercent(true)),
            Effect::Requeue(FollowUp::ChangeByOne(true, true)),
        ]
    );
    assert_eq!(s.percent, 20);
}

#[test]
fn system_vol_change_adopts_in_range_reading() {
    let mut s = fresh();
    s.update(ControlMsg::SystemVolChange(60));
    assert_eq!(s.volume, 60);
    assert_eq!(s.vol_str, "60");
    // An out-of-range reading is rejected and the prior value retained.
    s.update(ControlMsg::SystemVolChange(130));
    assert_eq!(s.volume, 60);
}

#[test]
fn slider_moves() {
    let mut s = fresh();
    let eff = s.update(ControlMsg::SliderVolChange(45, false));
    assert_eq!(eff, vec![Effect::SetBackendVolume(45)]);
    assert_eq!(s.volume, 45);
    assert_eq!(s.vol_str, "45");
    let eff = s.update(ControlMsg::SliderVolChange(45, false));
    assert_eq!(eff, Vec::new());

    let eff = s.update(ControlMsg::SliderVolChange(70, true));
    assert_eq!(eff, Vec::new());
    assert_eq!(s.percent, 70);
    // The limit's text and preset are deliberately left alone here.
    assert_eq!(s.percent_str, "20");
    assert_eq!(s.sel_lim, Some(BuiltIn::Twenty));
}

#[test]
fn change_limit_sel_presets() {
    let mut s = fresh();
    let eff = s.update(ControlMsg::ChangeLimitSel(BuiltIn::Eighty));
    assert_eq!(eff, Vec::new());
    assert_eq!(s.percent, 80);
    assert_eq!(s.percent_str, "80");
    assert_eq!(s.sel_lim, Some(BuiltIn::Eighty));

    let eff = s.update(ControlMsg::ChangeLimitSel(BuiltIn::Custom));
    assert_eq!(eff, vec![Effect::Requeue(FollowUp::ConfirmPercent(true))]);
    assert_eq!(s.sel_lim, Some(BuiltIn::Custom));
    assert_eq!(s.percent, 80);
}

#[test]
fn change_limit_sel_while_armed_replays() {
    let mut s = fresh();
    s.update(ControlMsg::EnableLimit(10));
    let eff = s.update(ControlMsg::ChangeLimitSel(BuiltIn::Fifty));
    assert_eq!(
        eff,
        vec![
            Effect::Requeue(FollowUp::DisableLimit),
            Effect::Requeue(FollowUp::ChangeLimitSel(BuiltIn::Fifty)),
            Effect::Requeue(FollowUp::EnableLimit),
        ]
    );
}

#[test]
fn clear_error_after_three_ticks() {
    let mut s = fresh();
    s.update(ControlMsg::ChangePercent("bad".to_string(), true));
    assert_eq!(s.error, Some(ControlError::ParseError));
    s.update(ControlMsg::ClearError);
    s.update(ControlMsg::ClearError);
    assert_eq!(s.error, Some(ControlError::ParseError));
    s.update(ControlMsg::ClearError);
    assert_eq!(s.error, None);
    assert_eq!(s.error_length, 3);
}

#[test]
fn clear_error_clock_wraps() {
    let mut s = fresh();
    for _ in 0..200 {
        s.update(ControlMsg::ClearError);
    }
    assert_eq!(s.error_length, 200);
    s.update(ControlMsg::ClearError);
    assert_eq!(s.error_length, 4);
}

#[test]
fn on_toggle_disables_auto_rearm() {
    let mut s = fresh();
    let eff = s.update(ControlMsg::OnToggle(true));
    assert!(!s.auto_autolimiter);
    assert_eq!(eff, vec![Effect::Requeue(FollowUp::EnableLimit)]);
    let eff = s.update(ControlMsg::OnToggle(false));
    assert_eq!(eff, vec![Effect::Requeue(FollowUp::DisableLimit)]);
}

#[test]
fn on_pick_reenables_auto_rearm_then_selects() {
    let mut s = fresh();
    let eff = s.update(ControlMsg::OnPick("Headphones".to_string()));
    assert_eq!(
        eff,
        vec![
            Effect::Requeue(FollowUp::ChangeAutoAutoLimiter(true)),
            Effect::Requeue(FollowUp::ChangeDevice("Headphones".to_string())),
        ]
    );
}

#[test]
fn percent_range_held_across_a_session() {
    // Whatever is thrown at the state machine — out-of-range readings
    // included — the committed limit and volume stay percents.
    let mut s = ControlState::init(devices(&["Speakers"]), 255);
    let msgs = vec![
        ControlMsg::SystemVolChange(250),
        ControlMsg::ChangePercent("300".to_string(), true),
        ControlMsg::ConfirmPercent(true),
        ControlMsg::SliderVolChange(100, false),
        ControlMsg::ChangeByOne(true, true),
        ControlMsg::ChangeByOne(true, false),
        ControlMsg::EnableLimit(200),
        ControlMsg::ConfirmPercent(false),
        ControlMsg::DisableLimit,
        ControlMsg::ClearError,
    ];
    for msg in msgs {
        s.update(msg);
        assert!(s.percent <= 100, "limit left the percent range");
        assert!(s.volume <= 100, "volume left the percent range");
    }
}

#[test]
fn idle_and_input_switch() {
    let mut s = fresh();
    assert_eq!(s.update(ControlMsg::Idle), Vec::new());
    s.update(ControlMsg::ChangeVolInput(InputType::Text));
    assert_eq!(s.input_vol, Some(InputType::Text));
}
