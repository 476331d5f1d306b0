use uinput_core::caps::{AbsInfo, CapabilityDescriptor, EventCode, Request};
use uinput_core::error::DeviceError;
use uinput_core::event::{BTN_LEFT, EV_ABS, EV_KEY, EV_REL, EV_REP, EV_SYN, REL_X};

fn code(type_: u16, code: u16) -> EventCode {
    EventCode { type_, code }
}

#[test]
fn plan_for_pointer() {
    let mut d = CapabilityDescriptor::new();
    d.enable(EV_REL, REL_X);
    d.enable(EV_KEY, BTN_LEFT);
    assert_eq!(
        d.registration_plan(),
        Ok(vec![
            Request::EnableType(code(EV_REL, REL_X)),
            Request::EnableCode(code(EV_REL, REL_X)),
            Request::EnableType(code(EV_KEY, BTN_LEFT)),
            Request::EnableCode(code(EV_KEY, BTN_LEFT)),
            Request::Setup,
            Request::Create,
        ])
    );
}

#[test]
fn plan_of_empty_descriptor_only_creates() {
    let d = CapabilityDescriptor::new();
    assert_eq!(d.registration_plan(), Ok(vec![Request::Setup, Request::Create]));
}

#[test]
fn plan_skips_repeats_sync_and_repeat_codes() {
    let mut d = CapabilityDescriptor::new();
    d.enable(EV_KEY, 30);
    d.enable(EV_KEY, 31);
    d.enable(EV_KEY, 30);
    d.enable(EV_SYN, 0);
    d.enable(EV_REP, 0);
    d.enable(EV_REP, 1);
    assert_eq!(
        d.registration_plan(),
        Ok(vec![
            Request::EnableType(code(EV_KEY, 30)),
            Request::EnableCode(code(EV_KEY, 30)),
            Request::EnableCode(code(EV_KEY, 31)),
            Request::EnableType(code(EV_REP, 0)),
            Request::Setup,
            Request::Create,
        ])
    );
}

#[test]
fn plan_sets_up_axes_after_codes() {
    let info = AbsInfo { minimum: 0, maximum: 1023, fuzz: 4, flat: 8, resolution: 12 };
    let mut d = CapabilityDescriptor::new();
    d.enable_axis(0, info);
    let plan = d.registration_plan().unwrap();
    assert_eq!(plan.len(), 5);
    assert_eq!(plan[0], Request::EnableType(code(EV_ABS, 0)));
    assert_eq!(plan[1], Request::EnableCode(code(EV_ABS, 0)));
    match plan[2] {
        Request::SetupAxis(a) => {
            assert_eq!(a.code, 0);
            assert_eq!(a.info, info);
        }
        other => panic!("unexpected request {:?}", other),
    }
    assert_eq!(plan[3], Request::Setup);
    assert_eq!(plan[4], Request::Create);
}

#[test]
fn plan_refuses_unknown_type() {
    let mut d = CapabilityDescriptor::new();
    d.enable(EV_KEY, 30);
    d.enable(0x1f, 0);
    d.enable(0x1e, 0);
    assert_eq!(d.registration_plan(), Err(DeviceError::Unsupported(code(0x1f, 0))));
}

#[test]
fn plan_refuses_code_past_type_maximum() {
    let mut d = CapabilityDescriptor::new();
    d.enable(EV_REL, 0x10);
    assert_eq!(d.registration_plan(), Err(DeviceError::Unsupported(code(EV_REL, 0x10))));
    let mut k = CapabilityDescriptor::new();
    k.enable(EV_KEY, 0x2ff);
    assert!(k.registration_plan().is_ok());
    k.enable(EV_KEY, 0x300);
    assert_eq!(k.registration_plan(), Err(DeviceError::Unsupported(code(EV_KEY, 0x300))));
}

#[test]
fn plan_refuses_axis_past_maximum() {
    let info = AbsInfo { minimum: -5, maximum: 5, fuzz: 0, flat: 0, resolution: 0 };
    let mut d = CapabilityDescriptor::new();
    d.enable(EV_KEY, 30);
    d.axes.push(uinput_core::caps::AxisSetup { code: 0x40, info });
    assert_eq!(d.registration_plan(), Err(DeviceError::Unsupported(code(EV_ABS, 0x40))));
}
