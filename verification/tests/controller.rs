use azizo_core::{
    AfterCall, AfterSettle, AsusController, CallbackState, ControllerError, ControllerState,
    EReadingMode, EyeCareMode, InitReport, InstanceGuard, ManualMode, ModeGoal, NativeCall,
    NormalMode, Outcome, RpcSymbol, SplendidMode, Step, VividMode, SETTLE_INTERVAL_MS,
};

fn live_controller() -> AsusController {
    let mut guard = InstanceGuard::new();
    let opening = AsusController::new(&mut guard).unwrap();
    let registering = opening
        .init_internal(&mut guard, Ok(InitReport { status: 0, handle_is_null: false }))
        .unwrap();
    registering.finish(&mut guard, Ok(())).unwrap()
}

/// A device that answers every call at once: it keeps its own values and
/// reports them through the callback as the native component does.
struct Device {
    mode_id: i32,
    monochrome: bool,
    dimming: i32,
    manual: i32,
    eyecare: i32,
    grayscale: i32,
    temp: i32,
    /// The status that set-dimming returns.
    dimming_status: i64,
    /// Entry points that cannot be bound.
    missing: Vec<RpcSymbol>,
    /// Every call that was made, and every wait, in order.
    log: Vec<String>,
}

impl Device {
    fn new(mode_id: i32, monochrome: bool) -> Device {
        Device {
            mode_id,
            monochrome,
            dimming: 70,
            manual: 50,
            eyecare: 2,
            grayscale: 3,
            temp: 60,
            dimming_status: 0,
            missing: Vec::new(),
            log: Vec::new(),
        }
    }

    fn report_mode(&self, shared: &mut CallbackState) {
        let text = format!("0_1_0_1_1,{},{}", self.dimming, if self.monochrome { 1 } else { 0 });
        shared.mode_callback(18, self.mode_id, Some(text.as_bytes()));
    }

    fn perform(&mut self, call: NativeCall, shared: &mut CallbackState) -> Result<i64, libloading::Error> {
        self.log.push(format!("{:?}", call));
        if self.missing.contains(&call.symbol()) {
            return Err(libloading::Error::DlSymUnknown);
        }
        match call {
            NativeCall::Get { symbol: RpcSymbol::GetColorMode } => self.report_mode(shared),
            NativeCall::Get { symbol: RpcSymbol::GetManualMode } => {
                shared.mode_callback(20, self.manual, None)
            }
            NativeCall::Get { symbol: RpcSymbol::GetEyecareMode } => {
                shared.mode_callback(21, self.eyecare, None)
            }
            NativeCall::Get { symbol: RpcSymbol::GetMonochrome } => {
                shared.mode_callback(27, self.grayscale * 256 + self.temp - 206, None)
            }
            NativeCall::Get { .. } => {}
            NativeCall::SetPreset { symbol, value } => {
                self.monochrome = false;
                match symbol {
                    RpcSymbol::SetSplendid => self.mode_id = value as i32,
                    RpcSymbol::SetSplendidManual => {
                        self.mode_id = 6;
                        self.manual = value as i32;
                    }
                    RpcSymbol::SetSplendidEyecare => {
                        self.mode_id = 7;
                        self.eyecare = value as i32;
                    }
                    _ => {}
                }
                self.report_mode(shared);
            }
            NativeCall::SetMonochrome { packed } => {
                self.monochrome = true;
                self.grayscale = (packed + 206) / 256;
                self.temp = (packed + 206) % 256;
                self.report_mode(shared);
            }
            NativeCall::SetDimming { level } => {
                if self.dimming_status != 0 {
                    return Ok(self.dimming_status);
                }
                self.dimming = level;
            }
        }
        Ok(0)
    }

    fn run(
        &mut self,
        controller: &AsusController,
        shared: &mut CallbackState,
        first: Step,
    ) -> Result<Outcome, ControllerError> {
        let mut step = first;
        loop {
            step = match step {
                Step::Call(call, after) => {
                    let result = self.perform(call, shared);
                    controller.returned(shared, after, result)
                }
                Step::Settle(after) => {
                    self.log.push(String::from("settle"));
                    controller.settled(shared, after)
                }
                Step::Done(result) => return result,
            };
        }
    }
}

#[test]
fn the_settle_interval_is_half_a_second() {
    assert_eq!(SETTLE_INTERVAL_MS, 500);
}

#[test]
fn get_state_is_the_snapshot_of_the_shared_state() {
    let controller = live_controller();
    let mut shared = CallbackState::new();
    shared.mode_callback(18, 6, Some(b"x,80,0"));
    assert_eq!(controller.get_state(&shared), shared.snapshot());
    assert_eq!(controller.get_state(&shared).mode_id, 6);
    assert_eq!(controller.get_state(&shared).dimming, 80);
}

#[test]
fn refresh_sliders_issues_three_queries_and_does_not_wait() {
    let controller = live_controller();
    let mut shared = CallbackState::new();
    let mut device = Device::new(1, false);
    device.manual = 80;
    device.eyecare = 4;
    let result = device.run(&controller, &mut shared, controller.refresh_sliders());
    assert!(matches!(result, Ok(Outcome::Completed)));
    assert_eq!(
        device.log,
        [
            "Get { symbol: GetManualMode }",
            "Get { symbol: GetEyecareMode }",
            "Get { symbol: GetMonochrome }"
        ]
    );
    assert_eq!(shared.manual_slider, 80);
    assert_eq!(shared.eyecare_slider, 4);
    assert_eq!((shared.ereading_grayscale, shared.ereading_temp), (3, 60));
}

#[test]
fn refresh_sliders_stops_at_the_first_call_that_cannot_be_made() {
    let controller = live_controller();
    let mut shared = CallbackState::new();
    let mut device = Device::new(1, false);
    device.missing.push(RpcSymbol::GetEyecareMode);
    let result = device.run(&controller, &mut shared, controller.refresh_sliders());
    assert!(matches!(result, Err(ControllerError::DllLoad(libloading::Error::DlSymUnknown))));
    assert_eq!(device.log, ["Get { symbol: GetManualMode }", "Get { symbol: GetEyecareMode }"]);
}

#[test]
fn sync_all_sliders_queries_waits_and_returns_the_snapshot() {
    let controller = live_controller();
    let mut shared = CallbackState::new();
    let mut device = Device::new(7, false);
    device.dimming = 85;
    device.manual = 10;
    device.eyecare = 3;
    device.grayscale = 2;
    device.temp = 40;
    let result = device.run(&controller, &mut shared, controller.sync_all_sliders());
    assert_eq!(
        device.log,
        [
            "Get { symbol: GetColorMode }",
            "settle",
            "Get { symbol: GetManualMode }",
            "Get { symbol: GetEyecareMode }",
            "Get { symbol: GetMonochrome }",
            "settle"
        ]
    );
    let expected = ControllerState {
        mode_id: 7,
        is_monochrome: false,
        dimming: 85,
        manual_slider: 10,
        eyecare_level: 3,
        ereading_grayscale: 2,
        ereading_temp: 40,
        last_non_ereading_mode: 1,
    };
    assert!(matches!(result, Ok(Outcome::Snapshot(s)) if s == expected));
}

#[test]
fn sync_all_sliders_goes_on_when_the_mode_is_unknown() {
    let controller = live_controller();
    let mut shared = CallbackState::new();
    let mut device = Device::new(99, false);
    let result = device.run(&controller, &mut shared, controller.sync_all_sliders());
    assert!(matches!(result, Ok(Outcome::Snapshot(s)) if s.mode_id == 99));
    assert_eq!(device.log.len(), 6);
}

#[test]
fn sync_all_sliders_captures_the_mode_under_the_overlay() {
    let controller = live_controller();
    let mut shared = CallbackState::new();
    let mut device = Device::new(6, true);
    let result = device.run(&controller, &mut shared, controller.sync_all_sliders());
    assert!(matches!(result, Ok(Outcome::Snapshot(s)) if s.last_non_ereading_mode == 6));
    assert_eq!(shared.last_non_ereading_mode, 6);
}

#[test]
fn sync_all_sliders_surfaces_a_call_that_cannot_be_made() {
    let controller = live_controller();
    let mut shared = CallbackState::new();
    let mut device = Device::new(1, false);
    device.missing.push(RpcSymbol::GetColorMode);
    let result = device.run(&controller, &mut shared, controller.sync_all_sliders());
    assert!(matches!(result, Err(ControllerError::DllLoad(_))));
    assert_eq!(device.log, ["Get { symbol: GetColorMode }"]);

    let mut device = Device::new(1, false);
    device.missing.push(RpcSymbol::GetMonochrome);
    let result = device.run(&controller, &mut shared, controller.sync_all_sliders());
    assert!(matches!(result, Err(ControllerError::DllLoad(_))));
    assert_eq!(device.log.len(), 5);
}

#[test]
fn set_dimming_clamps_before_use() {
    let controller = live_controller();
    for (level, sent) in [
        (70, 70),
        (40, 40),
        (100, 100),
        (39, 40),
        (101, 100),
        (0, 40),
        (-5, 40),
        (i32::MIN, 40),
        (i32::MAX, 100),
    ] {
        match controller.set_dimming(level) {
            Step::Call(call, after) => {
                assert_eq!(call, NativeCall::SetDimming { level: sent });
                assert_eq!(after, AfterCall::Dimming { level: sent });
            }
            other => panic!("expected a call, got {:?}", other),
        }
    }
}

#[test]
fn no_dimming_call_leaves_the_device_range() {
    let controller = live_controller();
    for level in (-300..300).chain([i32::MIN, i32::MAX]) {
        for step in [controller.set_dimming(level), controller.set_dimming_percent(level)] {
            match step {
                Step::Call(NativeCall::SetDimming { level: sent }, _) => {
                    assert!((40..=100).contains(&sent))
                }
                other => panic!("expected a dimming call, got {:?}", other),
            }
        }
    }
}

#[test]
fn set_dimming_writes_the_level_at_once_on_success() {
    let controller = live_controller();
    let mut shared = CallbackState::new();
    let mut device = Device::new(1, false);
    let result = device.run(&controller, &mut shared, controller.set_dimming(120));
    assert!(matches!(result, Ok(Outcome::Completed)));
    assert_eq!(device.log, ["SetDimming { level: 100 }"]);
    assert_eq!(device.dimming, 100);
    assert_eq!(shared, CallbackState { current_dimming: 100, ..CallbackState::new() });
}

#[test]
fn set_dimming_fails_with_the_native_status() {
    let controller = live_controller();
    let mut shared = CallbackState::new();
    let mut device = Device::new(1, false);
    device.dimming_status = 31;
    let result = device.run(&controller, &mut shared, controller.set_dimming(80));
    assert!(matches!(result, Err(ControllerError::DimmingFailed(31))));
    assert_eq!(shared, CallbackState::new());

    device.dimming_status = -7;
    let result = device.run(&controller, &mut shared, controller.set_dimming(80));
    assert!(matches!(result, Err(ControllerError::DimmingFailed(-7))));
    assert_eq!(shared, CallbackState::new());
}

#[test]
fn set_dimming_surfaces_a_call_that_cannot_be_made() {
    let controller = live_controller();
    let mut shared = CallbackState::new();
    let mut device = Device::new(1, false);
    device.missing.push(RpcSymbol::SetDimming);
    let result = device.run(&controller, &mut shared, controller.set_dimming(80));
    assert!(matches!(result, Err(ControllerError::DllLoad(_))));
    assert_eq!(shared, CallbackState::new());
}

#[test]
fn set_dimming_percent_converts_to_device_units() {
    let controller = live_controller();
    for (percent, sent) in [(0, 40), (50, 70), (100, 100), (75, 85), (-20, 40), (250, 100)] {
        match controller.set_dimming_percent(percent) {
            Step::Call(call, after) => {
                assert_eq!(call, NativeCall::SetDimming { level: sent });
                assert_eq!(after, AfterCall::Dimming { level: sent });
            }
            other => panic!("expected a call, got {:?}", other),
        }
    }
    let mut shared = CallbackState::new();
    let mut device = Device::new(1, false);
    let result = device.run(&controller, &mut shared, controller.set_dimming_percent(50));
    assert!(matches!(result, Ok(Outcome::Completed)));
    assert_eq!(shared.current_dimming, 70);
}

#[test]
fn get_current_mode_queries_waits_and_resolves() {
    let controller = live_controller();
    for (mode_id, expected) in [
        (1, SplendidMode::Normal),
        (2, SplendidMode::Vivid),
        (6, SplendidMode::Manual(50)),
        (7, SplendidMode::EyeCare(2)),
    ] {
        let mut shared = CallbackState::new();
        let mut device = Device::new(mode_id, false);
        let result = device.run(&controller, &mut shared, controller.get_current_mode());
        assert!(matches!(result, Ok(Outcome::Mode(m)) if m == expected));
        assert_eq!(device.log, ["Get { symbol: GetColorMode }", "settle"]);
        assert_eq!(shared.last_non_ereading_mode, 1);
    }
}

#[test]
fn get_current_mode_resolves_the_overlay_and_captures_the_mode() {
    let controller = live_controller();
    let mut shared = CallbackState::new();
    shared.mode_callback(27, 2 * 256 + 60 - 206, None);
    let mut device = Device::new(7, true);
    let result = device.run(&controller, &mut shared, controller.get_current_mode());
    assert!(
        matches!(result, Ok(Outcome::Mode(SplendidMode::EReading { grayscale: 2, temp: 60 })))
    );
    assert_eq!(shared.last_non_ereading_mode, 7);
}

#[test]
fn get_current_mode_fails_on_an_unknown_identifier() {
    let controller = live_controller();
    for mode_id in [-1, 0, 3, 4, 5, 8, 99] {
        let mut shared = CallbackState::new();
        let mut device = Device::new(mode_id, false);
        let result = device.run(&controller, &mut shared, controller.get_current_mode());
        assert!(matches!(result, Err(ControllerError::ModeNotDetected)));
    }
}

#[test]
fn get_current_mode_reads_the_snapshot_only_after_the_wait() {
    let controller = live_controller();
    let mut shared = CallbackState::new();
    let after = match controller.get_current_mode() {
        Step::Call(NativeCall::Get { symbol: RpcSymbol::GetColorMode }, after) => after,
        other => panic!("expected the mode query, got {:?}", other),
    };
    let after = match controller.returned(&mut shared, after, Ok(0)) {
        Step::Settle(after) => after,
        other => panic!("expected a wait, got {:?}", other),
    };
    // the callback arrives during the wait
    shared.mode_callback(18, 2, Some(b"x,70,0"));
    let result = controller.settled(&mut shared, after);
    assert!(matches!(result, Step::Done(Ok(Outcome::Mode(SplendidMode::Vivid)))));
}

#[test]
fn get_current_mode_surfaces_a_call_that_cannot_be_made() {
    let controller = live_controller();
    let mut shared = CallbackState::new();
    let mut device = Device::new(1, false);
    device.missing.push(RpcSymbol::GetColorMode);
    let result = device.run(&controller, &mut shared, controller.get_current_mode());
    assert!(matches!(result, Err(ControllerError::DllLoad(_))));
    assert_eq!(device.log, ["Get { symbol: GetColorMode }"]);
}

#[test]
fn set_mode_dispatches_by_variant() {
    let controller = live_controller();
    let mut shared = CallbackState::new();
    let mut device = Device::new(1, false);

    let result = device.run(&controller, &mut shared, controller.set_mode(&VividMode::new()));
    assert!(matches!(result, Ok(Outcome::Completed)));
    let result = device.run(&controller, &mut shared, controller.set_mode(&NormalMode::new()));
    assert!(matches!(result, Ok(Outcome::Completed)));
    let manual = ManualMode::new(33).unwrap();
    let result = device.run(&controller, &mut shared, controller.set_mode(&manual));
    assert!(matches!(result, Ok(Outcome::Completed)));
    let eyecare = EyeCareMode::new(4).unwrap();
    let result = device.run(&controller, &mut shared, controller.set_mode(&eyecare));
    assert!(matches!(result, Ok(Outcome::Completed)));
    let ereading = EReadingMode::new(4, 60).unwrap();
    let result = device.run(&controller, &mut shared, controller.set_mode(&ereading));
    assert!(matches!(result, Ok(Outcome::Completed)));
    let result =
        device.run(&controller, &mut shared, controller.set_mode(&SplendidMode::EyeCare(1)));
    assert!(matches!(result, Ok(Outcome::Completed)));

    assert_eq!(
        device.log,
        [
            "SetPreset { symbol: SetSplendid, value: 2 }",
            "SetPreset { symbol: SetSplendid, value: 1 }",
            "SetPreset { symbol: SetSplendidManual, value: 33 }",
            "SetPreset { symbol: SetSplendidEyecare, value: 4 }",
            "SetMonochrome { packed: 622 }",
            "SetPreset { symbol: SetSplendidEyecare, value: 1 }"
        ]
    );
}

#[test]
fn set_mode_succeeds_whatever_the_status() {
    let controller = live_controller();
    let mut shared = CallbackState::new();
    let after = match controller.set_mode(&NormalMode::new()) {
        Step::Call(_, after) => after,
        other => panic!("expected a call, got {:?}", other),
    };
    assert!(matches!(
        controller.returned(&mut shared, after, Ok(55)),
        Step::Done(Ok(Outcome::Completed))
    ));
    assert!(matches!(
        controller.returned(&mut shared, after, Err(libloading::Error::DlSymUnknown)),
        Step::Done(Err(ControllerError::DllLoad(libloading::Error::DlSymUnknown)))
    ));
    assert_eq!(shared, CallbackState::new());
}

#[test]
fn set_splendid_mode_and_set_monochrome_mode_pass_their_arguments() {
    let controller = live_controller();
    match controller.set_splendid_mode(RpcSymbol::SetSplendidManual, 12) {
        Step::Call(call, after) => {
            assert_eq!(
                call,
                NativeCall::SetPreset { symbol: RpcSymbol::SetSplendidManual, value: 12 }
            );
            assert_eq!(after, AfterCall::Apply { toggled: None });
        }
        other => panic!("expected a call, got {:?}", other),
    }
    match controller.set_monochrome_mode(3, 60) {
        Step::Call(call, after) => {
            assert_eq!(call, NativeCall::SetMonochrome { packed: 622 });
            assert_eq!(after, AfterCall::Apply { toggled: None });
        }
        other => panic!("expected a call, got {:?}", other),
    }
    match controller.set_monochrome_mode(0, 0) {
        Step::Call(call, _) => assert_eq!(call, NativeCall::SetMonochrome { packed: -206 }),
        other => panic!("expected a call, got {:?}", other),
    }
    match controller.set_monochrome_mode(255, 255) {
        Step::Call(call, _) => {
            assert_eq!(call, NativeCall::SetMonochrome { packed: 255 * 256 + 255 - 206 })
        }
        other => panic!("expected a call, got {:?}", other),
    }
}

#[test]
fn apply_mode_reports_what_it_is_told() {
    let controller = live_controller();
    let mut shared = CallbackState::new();
    let after = match controller.apply_mode(SplendidMode::Vivid, Some(SplendidMode::Vivid)) {
        Step::Call(call, after) => {
            assert_eq!(call, NativeCall::SetPreset { symbol: RpcSymbol::SetSplendid, value: 2 });
            after
        }
        other => panic!("expected a call, got {:?}", other),
    };
    assert!(matches!(
        controller.returned(&mut shared, after, Ok(0)),
        Step::Done(Ok(Outcome::Mode(SplendidMode::Vivid)))
    ));
}

#[test]
fn toggle_from_normal_enters_e_reading_and_comes_back_to_normal() {
    let controller = live_controller();
    let mut shared = CallbackState::new();
    shared.store_last_non_ereading_mode(7);
    let mut device = Device::new(1, false);
    device.run(&controller, &mut shared, controller.refresh_sliders()).unwrap();

    let result = device.run(&controller, &mut shared, controller.toggle_e_reading());
    assert!(
        matches!(result, Ok(Outcome::Mode(SplendidMode::EReading { grayscale: 3, temp: 60 })))
    );
    assert!(device.monochrome);
    assert_eq!(shared.last_non_ereading_mode, 1);

    let result = device.run(&controller, &mut shared, controller.toggle_e_reading());
    assert!(matches!(result, Ok(Outcome::Mode(SplendidMode::Normal))));
    assert!(!device.monochrome);
    assert_eq!(device.mode_id, 1);
    assert_eq!(
        device.log[3..],
        [
            "Get { symbol: GetColorMode }",
            "settle",
            // the level 3 of the snapshot is the level of the mode, which
            // the hardware counts as 2: 2 * 256 + 60 - 206
            "SetMonochrome { packed: 366 }",
            "Get { symbol: GetColorMode }",
            "settle",
            "SetPreset { symbol: SetSplendid, value: 1 }"
        ]
    );
}

#[test]
fn toggle_from_eye_care_comes_back_with_the_level_kept() {
    let controller = live_controller();
    let mut shared = CallbackState::new();
    let mut device = Device::new(7, false);
    device.eyecare = 3;
    device.run(&controller, &mut shared, controller.refresh_sliders()).unwrap();

    let result = device.run(&controller, &mut shared, controller.toggle_e_reading());
    assert!(matches!(result, Ok(Outcome::Mode(SplendidMode::EReading { .. }))));
    assert_eq!(shared.last_non_ereading_mode, 7);

    let result = device.run(&controller, &mut shared, controller.toggle_e_reading());
    assert!(matches!(result, Ok(Outcome::Mode(SplendidMode::EyeCare(3)))));
    assert_eq!(device.mode_id, 7);
    assert_eq!(device.eyecare, 3);
    assert!(!device.monochrome);
    assert_eq!(
        device.log.last().map(String::as_str),
        Some("SetPreset { symbol: SetSplendidEyecare, value: 3 }")
    );
}

#[test]
fn toggle_restores_manual_and_vivid() {
    let controller = live_controller();
    for (mode_id, expected) in [(2, SplendidMode::Vivid), (6, SplendidMode::Manual(50))] {
        let mut shared = CallbackState::new();
        let mut device = Device::new(mode_id, false);
        let result = device.run(&controller, &mut shared, controller.toggle_e_reading());
        assert!(matches!(result, Ok(Outcome::Mode(SplendidMode::EReading { .. }))));
        let result = device.run(&controller, &mut shared, controller.toggle_e_reading());
        assert!(matches!(result, Ok(Outcome::Mode(m)) if m == expected));
        assert_eq!(device.mode_id, mode_id);
    }
}

#[test]
fn toggle_out_of_e_reading_falls_back_to_normal() {
    let controller = live_controller();
    let mut shared = CallbackState::new();
    let mut device = Device::new(42, true);
    let result = device.run(&controller, &mut shared, controller.toggle_e_reading());
    assert!(matches!(result, Ok(Outcome::Mode(SplendidMode::Normal))));
    assert_eq!(shared.last_non_ereading_mode, 42);
}

#[test]
fn toggle_fails_when_the_mode_is_unknown() {
    let controller = live_controller();
    let mut shared = CallbackState::new();
    let mut device = Device::new(5, false);
    let result = device.run(&controller, &mut shared, controller.toggle_e_reading());
    assert!(matches!(result, Err(ControllerError::ModeNotDetected)));
    assert_eq!(device.log, ["Get { symbol: GetColorMode }", "settle"]);
    assert_eq!(shared.last_non_ereading_mode, 1);
}

#[test]
fn toggle_surfaces_a_call_that_cannot_be_made() {
    let controller = live_controller();
    let mut shared = CallbackState::new();
    let mut device = Device::new(1, false);
    device.missing.push(RpcSymbol::SetMonochrome);
    let result = device.run(&controller, &mut shared, controller.toggle_e_reading());
    assert!(matches!(result, Err(ControllerError::DllLoad(_))));
    assert_eq!(device.log.len(), 3);
}

#[test]
fn mode_from_state_resolves_and_captures() {
    let controller = live_controller();
    let mut shared = CallbackState::new();
    let state = ControllerState {
        mode_id: 6,
        is_monochrome: false,
        dimming: 70,
        manual_slider: 75,
        eyecare_level: 3,
        ereading_grayscale: 2,
        ereading_temp: 60,
        last_non_ereading_mode: 1,
    };
    assert!(matches!(
        controller.mode_from_state(&mut shared, &state),
        Ok(SplendidMode::Manual(75))
    ));
    assert_eq!(shared, CallbackState::new());

    let state = ControllerState { is_monochrome: true, ..state };
    assert!(matches!(
        controller.mode_from_state(&mut shared, &state),
        Ok(SplendidMode::EReading { grayscale: 2, temp: 60 })
    ));
    assert_eq!(shared, CallbackState { last_non_ereading_mode: 6, ..CallbackState::new() });

    let state = ControllerState { mode_id: 3, is_monochrome: false, ..state };
    assert!(matches!(
        controller.mode_from_state(&mut shared, &state),
        Err(ControllerError::ModeNotDetected)
    ));
    assert_eq!(shared.last_non_ereading_mode, 6);
}

#[test]
fn restore_last_mode_maps_the_remembered_identifier() {
    let controller = live_controller();
    let state = ControllerState {
        mode_id: 1,
        is_monochrome: true,
        dimming: 70,
        manual_slider: 75,
        eyecare_level: 3,
        ereading_grayscale: 2,
        ereading_temp: 60,
        last_non_ereading_mode: 7,
    };
    assert_eq!(controller.restore_last_mode(&state), SplendidMode::EyeCare(3));
    let state = ControllerState { last_non_ereading_mode: 6, ..state };
    assert_eq!(controller.restore_last_mode(&state), SplendidMode::Manual(75));
    let state = ControllerState { last_non_ereading_mode: 2, ..state };
    assert_eq!(controller.restore_last_mode(&state), SplendidMode::Vivid);
    let state = ControllerState { last_non_ereading_mode: 1, ..state };
    assert_eq!(controller.restore_last_mode(&state), SplendidMode::Normal);
    let state = ControllerState { last_non_ereading_mode: -1, ..state };
    assert_eq!(controller.restore_last_mode(&state), SplendidMode::Normal);
}

#[test]
fn every_continuation_ends_within_its_bound() {
    let controller = live_controller();
    let goals = [ModeGoal::Report, ModeGoal::Sync, ModeGoal::Toggle];
    let mut calls: Vec<AfterCall> = vec![
        AfterCall::Dimming { level: 70 },
        AfterCall::Apply { toggled: None },
        AfterCall::Apply { toggled: Some(SplendidMode::Vivid) },
    ];
    for sync in [false, true] {
        calls.push(AfterCall::ManualQuery { sync });
        calls.push(AfterCall::EyeCareQuery { sync });
        calls.push(AfterCall::MonochromeQuery { sync });
    }
    for goal in goals {
        calls.push(AfterCall::ModeQuery(goal));
    }
    for after in calls {
        let mut shared = CallbackState::new();
        let mut device = Device::new(1, false);
        let first = controller.returned(&mut shared, after, Ok(0));
        let _ = device.run(&controller, &mut shared, first);
        assert!(device.log.len() <= 5, "{:?}", after);
    }
    for after in [
        AfterSettle::Mode(ModeGoal::Report),
        AfterSettle::Mode(ModeGoal::Sync),
        AfterSettle::Mode(ModeGoal::Toggle),
        AfterSettle::Sync,
    ] {
        let mut shared = CallbackState::new();
        let mut device = Device::new(1, false);
        let first = controller.settled(&mut shared, after);
        let _ = device.run(&controller, &mut shared, first);
        assert!(device.log.len() <= 4, "{:?}", after);
    }
}

#[test]
fn outcome_accessors_pick_their_variant() {
    assert_eq!(Outcome::Mode(SplendidMode::Vivid).mode(), Some(SplendidMode::Vivid));
    assert_eq!(Outcome::Completed.mode(), None);
    assert_eq!(Outcome::Snapshot(ControllerState::default()).mode(), None);
    assert_eq!(
        Outcome::Snapshot(ControllerState::default()).snapshot(),
        Some(ControllerState::default())
    );
    assert_eq!(Outcome::Completed.snapshot(), None);
    assert_eq!(Outcome::Mode(SplendidMode::Vivid).snapshot(), None);
}

#[test]
fn is_done_tells_the_end_of_an_operation() {
    let controller = live_controller();
    assert!(!controller.get_current_mode().is_done());
    assert!(!Step::Settle(AfterSettle::Sync).is_done());
    assert!(Step::Done(Ok(Outcome::Completed)).is_done());
    assert!(Step::Done(Err(ControllerError::ModeNotDetected)).is_done());
}
