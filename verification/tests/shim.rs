use triton_rs::error::{NativeError, ERROR_CODE_INTERNAL, ERROR_CODE_NOT_FOUND};
use triton_rs::shim::{
    backend_finalize, backend_initialize, call_checked, model_finalize, model_initialize,
    model_instance_execute, model_instance_finalize, model_instance_initialize,
};
use triton_rs::{Backend, Error, Model, Request};

struct QuietBackend;

impl Backend for QuietBackend {
    type State = ();

    fn model_instance_execute(_model: &Model<()>, _requests: &[Request]) -> Result<(), Error> {
        Ok(())
    }
}

struct FailingBackend;

impl Backend for FailingBackend {
    type State = ();

    fn initialize() -> Result<(), Error> {
        Err(Error::new("backend refused to start"))
    }

    fn model_initialize(_model: &mut Model<()>) -> Result<(), Error> {
        Err(Error::new("model setup failed"))
    }

    fn model_instance_execute(_model: &Model<()>, _requests: &[Request]) -> Result<(), Error> {
        Err(Error::new("execute blew up"))
    }
}

fn test_model() -> Model<()> {
    Model::new("m".to_string(), 1, "/repo".to_string(), "{}".to_string())
}

#[test]
fn call_checked_success_is_a_null_handle() {
    assert!(call_checked(Ok(())).is_none());
}

#[test]
fn call_checked_failure_is_internal_with_the_original_text() {
    let out = call_checked(Err(Error::new("hook failed loudly")));
    let native = out.expect("failure must produce a non-null error object");
    assert_eq!(native.code, ERROR_CODE_INTERNAL);
    assert!(native.message.contains("hook failed loudly"));
    assert_eq!(native.message, "hook failed loudly");
}

#[test]
fn successful_hooks_return_null_at_every_entry_point() {
    let mut m = test_model();
    assert!(backend_initialize::<QuietBackend>().is_none());
    assert!(backend_finalize::<QuietBackend>().is_none());
    assert!(model_initialize::<QuietBackend>(&mut m).is_none());
    assert!(model_finalize::<QuietBackend>(&mut m).is_none());
    assert!(model_instance_initialize::<QuietBackend>().is_none());
    assert!(model_instance_finalize::<QuietBackend>().is_none());
    assert!(model_instance_execute::<QuietBackend>(Ok(&m), &[]).is_none());
}

#[test]
fn failing_hook_surfaces_internal_error_with_its_message() {
    let out = backend_initialize::<FailingBackend>();
    let native = out.expect("failing hook must produce an error object");
    assert_eq!(native.code, ERROR_CODE_INTERNAL);
    assert_eq!(native.message, "backend refused to start");

    let mut m = test_model();
    let out = model_initialize::<FailingBackend>(&mut m);
    let native = out.unwrap();
    assert_eq!(native.code, ERROR_CODE_INTERNAL);
    assert_eq!(native.message, "model setup failed");

    let out = model_instance_execute::<FailingBackend>(Ok(&m), &[]);
    let native = out.unwrap();
    assert_eq!(native.code, ERROR_CODE_INTERNAL);
    assert_eq!(native.message, "execute blew up");
}

#[test]
fn failed_model_lookup_is_returned_unwrapped() {
    let lookup: Result<&Model<()>, NativeError> =
        Err(NativeError::new(ERROR_CODE_NOT_FOUND, "no such instance".to_string()));
    let out = model_instance_execute::<QuietBackend>(lookup, &[]);
    let native = out.expect("a failed lookup is returned to the host");
    // The error keeps its original category: it was not re-wrapped as internal.
    assert_eq!(native.code, ERROR_CODE_NOT_FOUND);
    assert_eq!(native.message, "no such instance");
}
