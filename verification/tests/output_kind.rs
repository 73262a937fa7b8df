//! The output resource kind: accessors, modesetting and layout membership.

use wlroots_handles::output::{
    Origin, Output, OutputData, OutputDamage, OutputMode, OutputRegistry, Size, Subpixel,
    Transform,
};

fn data_with_modes(modes: Vec<OutputMode>) -> OutputData {
    OutputData {
        name: String::from("DP-1"),
        make: String::from("ExampleCorp"),
        model: String::from("EX-27"),
        serial: String::from("SER-002"),
        enabled: true,
        width: 800,
        height: 600,
        phys_width: 600,
        phys_height: 340,
        refresh: 59940,
        needs_swap: false,
        frame_pending: false,
        lx: 10,
        ly: 20,
        subpixel: Subpixel::VerticalBgr,
        transform: Transform::Normal,
        modes,
        current_mode: None,
        fullscreen_surface: None,
        layout: None,
        gamma_size: 1024,
        gamma: None,
        damage: OutputDamage { damage_id: 99 },
    }
}

fn run_on<R>(
    reg: &mut OutputRegistry,
    h: wlroots_handles::output::OutputHandle,
    f: impl FnOnce(Output) -> (Output, R),
) -> R {
    match h.run(reg, f) {
        Ok(r) => r,
        Err(_) => panic!("run must succeed on a live output"),
    }
}

#[test]
fn accessors_report_the_captured_state() {
    let mut reg = OutputRegistry::new();
    let h = Output::new(&mut reg, 1, data_with_modes(Vec::new())).unwrap();
    let got = run_on(&mut reg, h, |o| {
        let got = (
            o.name(),
            o.make(),
            o.model(),
            o.serial(),
            o.enabled(),
            o.size(),
            o.physical_size(),
            o.refresh_rate(),
            o.layout_space_pos(),
            o.subpixel(),
            o.get_transform(),
            o.get_gamma_size(),
            o.needs_swap(),
            o.frame_pending(),
        );
        (o, got)
    });
    assert_eq!(got.0, String::from("DP-1"));
    assert_eq!(got.1, String::from("ExampleCorp"));
    assert_eq!(got.2, String::from("EX-27"));
    assert_eq!(got.3, String::from("SER-002"));
    assert!(got.4);
    assert_eq!(got.5, (800, 600));
    assert_eq!(got.6, (600, 340));
    assert_eq!(got.7, 59940);
    assert_eq!(got.8, (10, 20));
    assert_eq!(got.9, Subpixel::VerticalBgr);
    assert_eq!(got.10, Transform::Normal);
    assert_eq!(got.11, 1024);
    assert!(!got.12);
    assert!(!got.13);
}

#[test]
fn choose_best_mode_picks_the_last_listed_mode() {
    let a = OutputMode { width: 1280, height: 720, refresh: 60000 };
    let b = OutputMode { width: 1920, height: 1080, refresh: 75000 };
    let mut reg = OutputRegistry::new();
    let h = Output::new(&mut reg, 1, data_with_modes(vec![a, b])).unwrap();
    let (cm, size, refresh) = run_on(&mut reg, h, |mut o| {
        o.choose_best_mode();
        let got = (o.current_mode(), o.size(), o.refresh_rate());
        (o, got)
    });
    assert_eq!(cm, Some(b));
    assert_eq!(size, (1920, 1080));
    assert_eq!(refresh, 75000);
}

#[test]
fn choose_best_mode_without_modes_changes_nothing() {
    let mut reg = OutputRegistry::new();
    let h = Output::new(&mut reg, 1, data_with_modes(Vec::new())).unwrap();
    let (cm, size) = run_on(&mut reg, h, |mut o| {
        o.choose_best_mode();
        let got = (o.current_mode(), o.size());
        (o, got)
    });
    assert_eq!(cm, None);
    assert_eq!(size, (800, 600));
}

#[test]
fn set_mode_succeeds_exactly_on_listed_modes() {
    let a = OutputMode { width: 1280, height: 720, refresh: 60000 };
    let b = OutputMode { width: 1920, height: 1080, refresh: 75000 };
    let unlisted = OutputMode { width: 640, height: 480, refresh: 60000 };
    let mut reg = OutputRegistry::new();
    let h = Output::new(&mut reg, 1, data_with_modes(vec![a, b])).unwrap();
    let (ok, bad, cm, size) = run_on(&mut reg, h, |mut o| {
        let ok = o.set_mode(a);
        let bad = o.set_mode(unlisted);
        let got = (ok, bad, o.current_mode(), o.size());
        (o, got)
    });
    assert!(ok);
    assert!(!bad);
    assert_eq!(cm, Some(a));
    assert_eq!(size, (1280, 720));
}

#[test]
fn set_custom_mode_clears_the_listed_mode() {
    let a = OutputMode { width: 1280, height: 720, refresh: 60000 };
    let mut reg = OutputRegistry::new();
    let h = Output::new(&mut reg, 1, data_with_modes(vec![a])).unwrap();
    let (accepted, cm, size, refresh) = run_on(&mut reg, h, |mut o| {
        o.set_mode(a);
        let accepted = o.set_custom_mode(Size { width: 2560, height: 1440 }, 144000);
        let got = (accepted, o.current_mode(), o.size(), o.refresh_rate());
        (o, got)
    });
    assert!(accepted);
    assert_eq!(cm, None);
    assert_eq!(size, (2560, 1440));
    assert_eq!(refresh, 144000);
}

#[test]
fn modes_returns_the_advertised_list() {
    let a = OutputMode { width: 1280, height: 720, refresh: 60000 };
    let b = OutputMode { width: 1920, height: 1080, refresh: 75000 };
    let mut reg = OutputRegistry::new();
    let h = Output::new(&mut reg, 1, data_with_modes(vec![a, b])).unwrap();
    let listed = run_on(&mut reg, h, |o| {
        let listed = o.modes();
        (o, listed)
    });
    assert_eq!(listed, vec![a, b]);
}

#[test]
fn transformed_resolution_swaps_on_quarter_turns() {
    let mut reg = OutputRegistry::new();
    let h = Output::new(&mut reg, 1, data_with_modes(Vec::new())).unwrap();
    let (normal, rotated, flipped) = run_on(&mut reg, h, |mut o| {
        let normal = o.transformed_resolution();
        o.transform(Transform::Rotate90);
        let rotated = o.transformed_resolution();
        o.transform(Transform::Flipped180);
        let flipped = o.transformed_resolution();
        (o, (normal, rotated, flipped))
    });
    assert_eq!(normal, (800, 600));
    assert_eq!(rotated, (600, 800));
    assert_eq!(flipped, (800, 600));
}

#[test]
fn position_gamma_and_fullscreen_surface_update() {
    let mut reg = OutputRegistry::new();
    let h = Output::new(&mut reg, 1, data_with_modes(Vec::new())).unwrap();
    let (pos, fs, damage) = run_on(&mut reg, h, |mut o| {
        o.set_position(Origin { x: -5, y: 99 });
        o.set_gamma(256, 1, 2, 3);
        o.set_fullscreen_surface(0x5A);
        let got = (o.layout_space_pos(), o.fullscreen_surface(), o.damage());
        (o, got)
    });
    assert_eq!(pos, (-5, 99));
    assert_eq!(fs, Some(0x5A));
    assert_eq!(damage, OutputDamage { damage_id: 99 });
}

#[test]
fn layout_membership_is_cleared_on_removal() {
    let mut reg = OutputRegistry::new();
    let h = Output::new(&mut reg, 1, data_with_modes(Vec::new())).unwrap();
    let (before, removed, after) = run_on(&mut reg, h, |mut o| {
        o.set_output_layout(Some(0x77));
        let before = o.layout();
        let removed = o.remove_from_output_layout();
        let after = o.layout();
        (o, (before, removed, after))
    });
    assert_eq!(before, Some(0x77));
    assert_eq!(removed, Some(0x77));
    assert_eq!(after, None);
}

#[test]
fn destruction_recovers_layout_membership_for_teardown() {
    let mut reg = OutputRegistry::new();
    let h = Output::new(&mut reg, 1, data_with_modes(Vec::new())).unwrap();
    assert!(h.run(&mut reg, |mut o: Output| {
        o.set_output_layout(Some(0x77));
        (o, ())
    }).is_ok());
    // Teardown hands the final state back, so the caller can remove the
    // output from the layout it still names: no membership is left dangling.
    let final_state = reg.notify_destroyed(1).unwrap();
    assert_eq!(final_state.layout, Some(0x77));
    assert_eq!(final_state.damage, OutputDamage { damage_id: 99 });
}
