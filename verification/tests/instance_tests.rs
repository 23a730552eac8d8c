use keystone::base::{kResultFalse, kResultOk};
use keystone::error::ErrorKind;
use keystone::guid::GUID;
use keystone::instance::{ComponentCall, Instance, InstanceState};

fn fresh() -> Instance {
    Instance::new("plugin", true, "CLASS").unwrap()
}

fn initialized() -> Instance {
    let mut i = fresh();
    i.initialize(kResultOk).unwrap();
    i
}

#[test]
fn instance_needs_component_capability() {
    let e = Instance::new("plugin", false, "CLASS").err().unwrap();
    assert_eq!(e.kind(), ErrorKind::InterfaceNotSupported);
    assert_eq!(e.message(), "failed to query component interface");
    let i = fresh();
    assert_eq!(i.state(), InstanceState::Created);
    assert_eq!(i.class_id(), "CLASS");
    assert_eq!(i.get_plugin(), "plugin");
}

#[test]
fn initialize_is_one_shot() {
    let mut i = fresh();
    assert!(i.initialize(kResultOk).is_ok());
    assert_eq!(i.state(), InstanceState::Initialized);
    let e = i.initialize(kResultOk).unwrap_err();
    assert_eq!(e.kind(), ErrorKind::PreconditionFailed);
    assert_eq!(i.state(), InstanceState::Initialized);
}

#[test]
fn initialize_failure_leaves_component_fresh() {
    let mut i = fresh();
    let e = i.initialize(kResultFalse).unwrap_err();
    assert_eq!(e.kind(), ErrorKind::InitializationFailed);
    assert_eq!(e.message(), "failed to initialize component");
    assert_eq!(i.state(), InstanceState::Created);
    assert!(i.initialize(kResultOk).is_ok());
}

#[test]
fn set_active_is_rejected_before_initialize() {
    let mut i = fresh();
    let e = i.set_active(true, kResultOk).unwrap_err();
    assert_eq!(e.kind(), ErrorKind::PreconditionFailed);
    assert_eq!(i.state(), InstanceState::Created);
}

#[test]
fn set_active_toggles_between_active_and_inactive() {
    let mut i = initialized();
    assert!(i.set_active(false, kResultOk).is_ok());
    assert_eq!(i.state(), InstanceState::Initialized);
    assert!(i.set_active(true, kResultOk).is_ok());
    assert_eq!(i.state(), InstanceState::Active);
    assert!(i.set_active(true, kResultOk).is_ok());
    assert_eq!(i.state(), InstanceState::Active);
    assert!(i.set_active(false, kResultOk).is_ok());
    assert_eq!(i.state(), InstanceState::Inactive);
    assert!(i.set_active(true, kResultOk).is_ok());
    assert_eq!(i.state(), InstanceState::Active);
}

#[test]
fn set_active_failure_changes_nothing() {
    let mut i = initialized();
    let e = i.set_active(true, kResultFalse).unwrap_err();
    assert_eq!(e.kind(), ErrorKind::CallFailed);
    assert_eq!(e.message(), "failed to activate component");
    assert_eq!(i.state(), InstanceState::Initialized);
}

#[test]
fn terminate_is_open_only_when_not_active() {
    let mut i = fresh();
    assert_eq!(i.terminate(kResultOk).unwrap_err().kind(), ErrorKind::PreconditionFailed);
    let mut i = initialized();
    i.set_active(true, kResultOk).unwrap();
    assert_eq!(i.terminate(kResultOk).unwrap_err().kind(), ErrorKind::PreconditionFailed);
    assert_eq!(i.state(), InstanceState::Active);
    i.set_active(false, kResultOk).unwrap();
    let e = i.terminate(kResultFalse).unwrap_err();
    assert_eq!(e.kind(), ErrorKind::CallFailed);
    assert_eq!(i.state(), InstanceState::Inactive);
    assert!(i.terminate(kResultOk).is_ok());
    assert_eq!(i.state(), InstanceState::Terminated);
    assert_eq!(i.set_active(true, kResultOk).unwrap_err().kind(), ErrorKind::PreconditionFailed);
    assert_eq!(i.initialize(kResultOk).unwrap_err().kind(), ErrorKind::PreconditionFailed);
}

#[test]
fn dispose_tears_down_in_order_and_only_once() {
    let mut i = initialized();
    i.set_active(true, kResultOk).unwrap();
    assert_eq!(
        i.dispose(),
        vec![ComponentCall::SetActive(false), ComponentCall::Terminate, ComponentCall::Release]
    );
    assert_eq!(i.state(), InstanceState::Disposed);
    assert!(i.dispose().is_empty());
    assert_eq!(i.state(), InstanceState::Disposed);
}

#[test]
fn dispose_skips_terminate_for_component_never_initialized() {
    let mut i = fresh();
    assert_eq!(i.dispose(), vec![ComponentCall::Release]);
    let mut t = initialized();
    t.terminate(kResultOk).unwrap();
    assert_eq!(t.dispose(), vec![ComponentCall::Release]);
}

#[test]
fn capability_queries_map_absence_to_not_supported() {
    let i = fresh();
    assert!(i.query_audio_processor_intf(true).is_ok());
    assert_eq!(
        i.query_audio_processor_intf(false).unwrap_err().message(),
        "failed to query audio processor interface"
    );
    assert_eq!(
        i.query_edit_controller_intf(false).unwrap_err().message(),
        "instance does not provide edit controller interface"
    );
    assert_eq!(
        i.create_edit_controller_intf(false).unwrap_err().message(),
        "failed to get controller interface"
    );
    assert_eq!(
        i.query_process_context_requirements_intf(false).unwrap_err().kind(),
        ErrorKind::InterfaceNotSupported
    );
    assert_eq!(i.create_class_instance(false).unwrap_err().message(), "plugin not loaded");
    assert!(i.create_class_instance(true).is_ok());
    let cid = GUID { data: [3; 16] };
    assert_eq!(i.get_controller_class_id(kResultOk, cid).unwrap().data, [3; 16]);
    assert_eq!(
        i.get_controller_class_id(kResultFalse, cid).unwrap_err().message(),
        "failed to get controller class id"
    );
}
