//! Model-side handle wrappers: the loaded model version, its configuration
//! text, and the one piece of opaque state a plugin may attach to a model
//! across calls.
//!
//! The native layer stores attached state as an untyped pointer; here the
//! slot is modeled as an optional value carrying a run-time type tag, and
//! every read checks the tag before handing the value out. At most one state
//! object is attached at a time: attaching over an existing one releases the
//! previous object first, and one detach returns the object exactly once.

use crate::error::Error;
use crate::text::{spec_decimal, u64_to_string};
use vstd::prelude::*;
use vstd::string::StringExecFns;

verus! {

/// An attached state object together with the run-time tag standing for its
/// type identity.
pub struct TaggedState<S> {
    /// The tag standing for the value's run-time type identity.
    pub tag: u64,
    /// The attached value.
    pub value: S,
}

/// What reading the state slot with a given tag yields.
pub enum StateRead<S> {
    /// The slot is empty.
    Empty,
    /// The slot holds a value attached under the same tag.
    Found(S),
    /// The slot holds a value attached under a different tag.
    Mismatch,
}

/// Reading a state slot with a tag: the value when the tags agree, a
/// mismatch when they differ, nothing when the slot is empty.
pub open spec fn spec_read_state<S>(state: Option<TaggedState<S>>, tag: u64) -> StateRead<S> {
    match state {
        None => StateRead::Empty,
        Some(ts) => if ts.tag == tag {
            StateRead::Found(ts.value)
        } else {
            StateRead::Mismatch
        },
    }
}

/// A loaded model version: its name, integer version, repository location,
/// configuration text, and the plugin's attached state slot.
pub struct Model<S> {
    name: String,
    version: u64,
    location: String,
    config_json: String,
    state: Option<TaggedState<S>>,
}

impl<S> Model<S> {
    /// The model's name.
    pub closed spec fn spec_name(self) -> Seq<char> {
        self.name@
    }

    /// The model's version number.
    pub closed spec fn spec_version(self) -> u64 {
        self.version
    }

    /// The model's repository location.
    pub closed spec fn spec_location(self) -> Seq<char> {
        self.location@
    }

    /// The model's configuration text.
    pub closed spec fn spec_config(self) -> Seq<char> {
        self.config_json@
    }

    /// The attached state slot.
    pub closed spec fn spec_state(self) -> Option<TaggedState<S>> {
        self.state
    }

    /// Builds the wrapper for a model the host describes with these values;
    /// no state is attached yet.
    pub fn new(name: String, version: u64, location: String, config_json: String) -> (r: Model<S>)
        ensures
            r.spec_name() == name@,
            r.spec_version() == version,
            r.spec_location() == location@,
            r.spec_config() == config_json@,
            r.spec_state() is None,
    {
        Model { name, version, location, config_json, state: None }
    }

    /// The model's name.
    pub fn name(&self) -> (r: Result<String, Error>)
        ensures
            r matches Ok(s) && s@ == self.spec_name(),
    {
        Ok(self.name.clone())
    }

    /// The model's version number.
    pub fn version(&self) -> (r: Result<u64, Error>)
        ensures
            r matches Ok(v) && v == self.spec_version(),
    {
        Ok(self.version)
    }

    /// The model's repository location.
    pub fn location(&self) -> (r: Result<String, Error>)
        ensures
            r matches Ok(s) && s@ == self.spec_location(),
    {
        Ok(self.location.clone())
    }

    /// The repository path of a named artifact of this model version:
    /// `location/version/filename`.
    pub fn path(&self, filename: &str) -> (r: Result<String, Error>)
        ensures
            r matches Ok(p) && p@ == self.spec_location() + "/"@ + spec_decimal(
                self.spec_version() as nat,
            ) + "/"@ + filename@,
    {
        let mut p = self.location.clone();
        p.append("/");
        let version = u64_to_string(self.version);
        p.append(version.as_str());
        p.append("/");
        p.append(filename);
        Ok(p)
    }

    /// The model's configuration, as a transient message wrapper.
    pub fn config(&self) -> (r: Result<ModelConfig, Error>)
        ensures
            r matches Ok(c) && c.spec_text() == self.spec_config(),
    {
        Ok(ModelConfig { text: self.config_json.clone() })
    }

    /// Attaches a state object under a type tag, transferring ownership to
    /// the model. A previously attached object is released first: the slot
    /// never holds more than one object.
    pub fn set_data(&mut self, tag: u64, value: S) -> (r: Result<(), Error>)
        ensures
            r is Ok,
            final(self).spec_state() == Some(TaggedState { tag, value }),
            final(self).spec_name() == old(self).spec_name(),
            final(self).spec_version() == old(self).spec_version(),
            final(self).spec_location() == old(self).spec_location(),
            final(self).spec_config() == old(self).spec_config(),
    {
        let _previous = self.drop_data();
        self.state = Some(TaggedState { tag, value });
        Ok(())
    }

    /// Detaches and returns the attached state object, leaving the slot
    /// empty. This is the single path that gives the object back for
    /// disposal: it returns the object at most once, and `None` when the
    /// slot is already empty.
    pub fn drop_data(&mut self) -> (r: Result<Option<TaggedState<S>>, Error>)
        ensures
            r matches Ok(prev) && prev == old(self).spec_state(),
            final(self).spec_state() is None,
            final(self).spec_name() == old(self).spec_name(),
            final(self).spec_version() == old(self).spec_version(),
            final(self).spec_location() == old(self).spec_location(),
            final(self).spec_config() == old(self).spec_config(),
    {
        let previous = self.state.take();
        Ok(previous)
    }

    /// A borrowed view of the attached state object, after checking the
    /// caller's type tag against the one the object was attached under. A
    /// differing tag is a hard error, never a silent reinterpretation; an
    /// empty slot is no error.
    pub fn data(&self, tag: u64) -> (r: Result<Option<&S>, Error>)
        ensures
            match spec_read_state(self.spec_state(), tag) {
                StateRead::Empty => r matches Ok(v) && v is None,
                StateRead::Found(value) => r matches Ok(v) && v matches Some(b) && *b == value,
                StateRead::Mismatch => r matches Err(e) && e@ == "Model state type mismatch"@,
            },
    {
        match &self.state {
            None => Ok(None),
            Some(ts) => {
                if ts.tag == tag {
                    Ok(Some(&ts.value))
                } else {
                    Err(Error::new("Model state type mismatch"))
                }
            },
        }
    }
}

/// State attachment protocol: after attaching a value under a tag, reading
/// with the same tag finds exactly that value, reading with any other tag is
/// a mismatch, and an emptied slot reads as empty — so a detach is returned
/// at most once.
pub proof fn lemma_state_attach_read<S>(state: Option<TaggedState<S>>, tag: u64, other: u64, value: S)
    ensures
        spec_read_state(Some(TaggedState { tag, value }), tag) == StateRead::Found(value),
        other != tag ==> spec_read_state(Some(TaggedState { tag, value }), other)
            == StateRead::<S>::Mismatch,
        spec_read_state(Option::<TaggedState<S>>::None, tag) == StateRead::<S>::Empty,
{
}

/// A transient wrapper over the model's serialized configuration message,
/// exposing its JSON text.
pub struct ModelConfig {
    text: String,
}

/// Whether a text is well-formed JSON, as the configuration parser decides
/// it.
pub uninterp spec fn json_text_parses(text: Seq<char>) -> bool;

/// Relies on serde_json::from_str: whether a text parses as a JSON value
/// depends on the text alone. The parse error is converted to its display
/// text.
#[verifier::external_body]
fn parse_json_value(text: &str) -> (r: Result<serde_json::Value, String>)
    ensures
        r is Ok <==> json_text_parses(text@),
{
    match serde_json::from_str::<serde_json::Value>(text) {
        Ok(value) => Ok(value),
        Err(error) => Err(error.to_string()),
    }
}

#[verifier::external_type_specification]
#[verifier::external_body]
pub struct ExJsonValue(serde_json::Value);

impl ModelConfig {
    /// The configuration's JSON text.
    pub closed spec fn spec_text(self) -> Seq<char> {
        self.text@
    }

    /// Get the model configuration as a JSON-formatted string.
    pub fn as_str(&self) -> (r: Result<&str, Error>)
        ensures
            r matches Ok(s) && s@ == self.spec_text(),
    {
        Ok(self.text.as_str())
    }

    /// Get the model configuration as a parsed JSON value. Fails exactly
    /// when the text is not well-formed JSON.
    pub fn as_json(&self) -> (r: Result<serde_json::Value, Error>)
        ensures
            r is Ok <==> json_text_parses(self.spec_text()),
    {
        match parse_json_value(self.text.as_str()) {
            Ok(value) => Ok(value),
            Err(message) => Err(Error::from_string(message)),
        }
    }
}

} // verus!
