//! Records attached to a test case when two programs disagree, and the
//! rendering of observed output as text.

use vstd::prelude::*;
use vstd::string::StringSliceAdditionalSpecFns;
use vstd::utf8::{encode_utf8, valid_utf8};

verus! {

/// The JSON text that `serde_json` writes for a list of bytes.
pub uninterp spec fn json_of_bytes(bytes: Seq<u8>) -> Seq<char>;

/// `serde_json::to_string` on a byte vector: where it succeeds, the JSON
/// text of the list of its bytes; nothing where it fails.
#[verifier::external_body]
fn bytes_to_json(bytes: &Vec<u8>) -> (r: Option<String>)
    ensures
        r matches Some(text) ==> text@ == json_of_bytes(bytes@),
{
    match serde_json::to_string(bytes) {
        Ok(text) => Some(text),
        Err(_) => None,
    }
}

/// `core::str::from_utf8`: the bytes as a string slice exactly when they
/// are valid UTF-8; the slice then consists of these bytes.
#[verifier::external_body]
pub(crate) fn utf8_text(bytes: &[u8]) -> (r: Option<&str>)
    ensures
        r is Some <==> valid_utf8(bytes@),
        r matches Some(text) ==> text.spec_bytes() == bytes@,
{
    match core::str::from_utf8(bytes) {
        Ok(text) => Some(text),
        Err(_) => None,
    }
}

/// A string with a name.
#[derive(Debug)]
pub struct NamedString {
    name: String,
    value: String,
}

impl NamedString {
    /// The name and the value as a pair of texts.
    pub closed spec fn view(&self) -> (Seq<char>, Seq<char>) {
        (self.name@, self.value@)
    }

    /// Gives `value` the name `name`.
    pub fn new(name: String, value: String) -> (named: Self)
        ensures
            named@ == (name@, value@),
    {
        Self { name, value }
    }

    /// The name.
    pub fn name(&self) -> (name: &String)
        ensures
            name@ == self@.0,
    {
        &self.name
    }

    /// The value.
    pub fn value(&self) -> (value: &String)
        ensures
            value@ == self@.1,
    {
        &self.value
    }
}

/// A difference between what two programs produced, as a mathematical
/// value: the kind of difference and the two named results.
pub ghost struct DiffModel {
    pub name: Seq<char>,
    pub o1: (Seq<char>, Seq<char>),
    pub o2: (Seq<char>, Seq<char>),
}

/// The two programs wrote different things to standard output.
#[derive(Debug)]
pub struct StdOutDiffMetadata {
    name: String,
    o1: NamedString,
    o2: NamedString,
}

impl View for StdOutDiffMetadata {
    type V = DiffModel;

    closed spec fn view(&self) -> DiffModel {
        DiffModel { name: self.name@, o1: self.o1@, o2: self.o2@ }
    }
}

impl StdOutDiffMetadata {
    /// Records the two outputs under the names of the programs.
    pub fn new(o1_res: String, o2_res: String, o1_name: String, o2_name: String) -> (r: Self)
        ensures
            r@ == (DiffModel {
                name: "stdout-diff"@,
                o1: (o1_name@, o1_res@),
                o2: (o2_name@, o2_res@),
            }),
    {
        Self {
            name: String::from_str("stdout-diff"),
            o1: NamedString::new(o1_name, o1_res),
            o2: NamedString::new(o2_name, o2_res),
        }
    }

    /// The kind of difference.
    pub fn name(&self) -> (name: &String)
        ensures
            name@ == self@.name,
    {
        &self.name
    }

    /// What the first program produced.
    pub fn o1(&self) -> (o1: &NamedString)
        ensures
            o1@ == self@.o1,
    {
        &self.o1
    }

    /// What the second program produced.
    pub fn o2(&self) -> (o2: &NamedString)
        ensures
            o2@ == self@.o2,
    {
        &self.o2
    }
}

/// The two programs wrote different things to standard error.
#[derive(Debug)]
pub struct StdErrDiffMetadata {
    name: String,
    o1: NamedString,
    o2: NamedString,
}

impl View for StdErrDiffMetadata {
    type V = DiffModel;

    closed spec fn view(&self) -> DiffModel {
        DiffModel { name: self.name@, o1: self.o1@, o2: self.o2@ }
    }
}

impl StdErrDiffMetadata {
    /// Records the two outputs under the names of the programs.
    pub fn new(o1_res: String, o2_res: String, o1_name: String, o2_name: String) -> (r: Self)
        ensures
            r@ == (DiffModel {
                name: "stderr-diff"@,
                o1: (o1_name@, o1_res@),
                o2: (o2_name@, o2_res@),
            }),
    {
        Self {
            name: String::from_str("stderr-diff"),
            o1: NamedString::new(o1_name, o1_res),
            o2: NamedString::new(o2_name, o2_res),
        }
    }

    /// The kind of difference.
    pub fn name(&self) -> (name: &String)
        ensures
            name@ == self@.name,
    {
        &self.name
    }

    /// What the first program produced.
    pub fn o1(&self) -> (o1: &NamedString)
        ensures
            o1@ == self@.o1,
    {
        &self.o1
    }

    /// What the second program produced.
    pub fn o2(&self) -> (o2: &NamedString)
        ensures
            o2@ == self@.o2,
    {
        &self.o2
    }
}

/// One of the two programs wrote to standard error and the other did not.
#[derive(Debug)]
pub struct StdErrBinaryDiffMetadata {
    name: String,
    o1: NamedString,
    o2: NamedString,
}

impl View for StdErrBinaryDiffMetadata {
    type V = DiffModel;

    closed spec fn view(&self) -> DiffModel {
        DiffModel { name: self.name@, o1: self.o1@, o2: self.o2@ }
    }
}

impl StdErrBinaryDiffMetadata {
    /// Records the two outputs under the names of the programs.
    pub fn new(o1_res: String, o2_res: String, o1_name: String, o2_name: String) -> (r: Self)
        ensures
            r@ == (DiffModel {
                name: "stderr-binary-diff"@,
                o1: (o1_name@, o1_res@),
                o2: (o2_name@, o2_res@),
            }),
    {
        Self {
            name: String::from_str("stderr-binary-diff"),
            o1: NamedString::new(o1_name, o1_res),
            o2: NamedString::new(o2_name, o2_res),
        }
    }

    /// The kind of difference.
    pub fn name(&self) -> (name: &String)
        ensures
            name@ == self@.name,
    {
        &self.name
    }

    /// What the first program produced.
    pub fn o1(&self) -> (o1: &NamedString)
        ensures
            o1@ == self@.o1,
    {
        &self.o1
    }

    /// What the second program produced.
    pub fn o2(&self) -> (o2: &NamedString)
        ensures
            o2@ == self@.o2,
    {
        &self.o2
    }
}

/// The input that a test case was run on, as text.
#[derive(Debug)]
pub struct InputMetadata {
    name: String,
    input: String,
}

impl InputMetadata {
    /// The kind of record and the input as a pair of texts.
    pub closed spec fn view(&self) -> (Seq<char>, Seq<char>) {
        (self.name@, self.input@)
    }

    /// Records the input.
    pub fn new(input: String) -> (r: Self)
        ensures
            r@ == ("input-metadata"@, input@),
    {
        Self { name: String::from_str("input-metadata"), input }
    }

    /// The kind of record.
    pub fn name(&self) -> (name: &String)
        ensures
            name@ == self@.0,
    {
        &self.name
    }

    /// The input.
    pub fn input(&self) -> (input: &String)
        ensures
            input@ == self@.1,
    {
        &self.input
    }
}

/// The text for bytes that are not valid UTF-8, given their JSON text where
/// serializing them succeeded.
pub open spec fn invalid_utf8_text(json: Option<Seq<char>>) -> Seq<char> {
    match json {
        Some(text) => "utf8 error, bytes: "@ + text,
        None => "Serialization error"@,
    }
}

/// Renders bytes that are not valid UTF-8, given their JSON text where
/// serializing them succeeded.
pub fn render_invalid_utf8(json: Option<String>) -> (text: String)
    ensures
        text@ == invalid_utf8_text(
            match json {
                Some(json) => Some(json@),
                None => None,
            },
        ),
{
    match json {
        Some(json) => String::from_str("utf8 error, bytes: ").concat(json.as_str()),
        None => String::from_str("Serialization error"),
    }
}

/// Whether `text` is a rendering of the observed output `v`: the output
/// itself where it is valid UTF-8, its bytes as JSON (or a remark that
/// they could not be serialized) where it is not, and a remark where
/// nothing was observed.
pub open spec fn mapped_text(v: Option<Seq<u8>>, text: Seq<char>) -> bool {
    match v {
        None => text == "Did not observe anything"@,
        Some(bytes) => if valid_utf8(bytes) {
            encode_utf8(text) == bytes
        } else {
            text == invalid_utf8_text(Some(json_of_bytes(bytes))) || text == invalid_utf8_text(
                None,
            )
        },
    }
}

/// The bytes that were observed, where any were.
pub open spec fn observed(v: Option<Vec<u8>>) -> Option<Seq<u8>> {
    match v {
        Some(bytes) => Some(bytes@),
        None => None,
    }
}

/// Renders observed output as text.
pub fn vec_string_mapper(v: &Option<Vec<u8>>) -> (text: String)
    ensures
        mapped_text(observed(*v), text@),
{
    match v {
        None => String::from_str("Did not observe anything"),
        Some(bytes) => match utf8_text(bytes.as_slice()) {
            Some(text) => {
                String::from_str(text)
            },
            None => render_invalid_utf8(bytes_to_json(bytes)),
        },
    }
}

} // verus!
