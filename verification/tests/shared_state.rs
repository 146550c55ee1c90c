//! Two different instances of the same model may execute at the same time,
//! both reading the model's attached state. The adapter hands each execute
//! an immutable borrow of the model and takes no lock of its own, so a read
//! through one instance can never corrupt a read through another. These
//! tests drive the two instances' executes through the shim against one
//! model value and check that both observe the attached state intact.

use triton_rs::datatype::CODE_BYTES;
use triton_rs::request::{Input, InputRegion};
use triton_rs::shim::{model_finalize, model_initialize, model_instance_execute};
use triton_rs::{encode_string, Backend, Error, MemoryKind, Model, Request, Response};

const GREETING_TAG: u64 = 11;

struct GreetingBackend;

impl Backend for GreetingBackend {
    type State = String;

    fn model_initialize(model: &mut Model<String>) -> Result<(), Error> {
        model.set_data(GREETING_TAG, "you said".to_string())
    }

    fn model_finalize(model: &mut Model<String>) -> Result<(), Error> {
        model.drop_data()?;
        Ok(())
    }

    fn model_instance_execute(model: &Model<String>, requests: &[Request]) -> Result<(), Error> {
        let greeting = match model.data(GREETING_TAG)? {
            Some(g) => g,
            None => return Err(Error::new("model state was not attached")),
        };
        for request in requests {
            let prompt = request.get_input("prompt")?.as_string()?;
            let answer = format!("{greeting}: {prompt}");
            let encoded = encode_string(&answer);

            let mut response = Response::new(request)?;
            let output = response.output("output", CODE_BYTES, &[1]);
            let buffer = output.buffer(encoded.len());
            buffer.copy_from_slice(&encoded);
            if response.outputs()[0].data() != &encoded {
                return Err(Error::new("output buffer was corrupted"));
            }
            response.send()?;
        }
        Ok(())
    }
}

fn prompt_request(text: &str) -> Request {
    let input = Input::new(
        "prompt".to_string(),
        CODE_BYTES,
        1,
        vec![InputRegion { kind: MemoryKind::Cpu, bytes: encode_string(text) }],
    )
    .unwrap();
    Request::new(vec![input])
}

#[test]
fn two_instances_read_the_same_attached_state() {
    let mut model: Model<String> = Model::new(
        "greeter".to_string(),
        1,
        "/repo".to_string(),
        "{}".to_string(),
    );
    assert!(model_initialize::<GreetingBackend>(&mut model).is_none());

    // Two instances of the same model: their executes interleave, each
    // reading the one attached state object through its own borrow.
    let batch_for_first_instance = [prompt_request("cat"), prompt_request("dogs")];
    let batch_for_second_instance = [prompt_request("fish")];

    let first = model_instance_execute::<GreetingBackend>(Ok(&model), &batch_for_first_instance);
    assert!(first.is_none());
    let second = model_instance_execute::<GreetingBackend>(Ok(&model), &batch_for_second_instance);
    assert!(second.is_none());

    // Neither execute disturbed the attached state.
    assert_eq!(model.data(GREETING_TAG).unwrap().unwrap(), "you said");
    assert!(model_finalize::<GreetingBackend>(&mut model).is_none());
    assert!(model.data(GREETING_TAG).unwrap().is_none());
}
