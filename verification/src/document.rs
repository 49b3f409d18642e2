//! A document as it travels to the service.
use vstd::prelude::*;

verus! {

/// A document in its serialized form: the JSON text that is sent as the body
/// of a request.
#[derive(Debug)]
pub struct Document {
    json: String,
}

impl View for Document {
    type V = Seq<char>;

    closed spec fn view(&self) -> Seq<char> {
        self.json@
    }
}

impl Document {
    /// The document whose serialized form is `json`.
    pub fn new(json: String) -> (document: Document)
        ensures
            document@ == json@,
    {
        Document { json }
    }

    /// The serialized form.
    pub fn as_str(&self) -> (json: &str)
        ensures
            json@ == self@,
    {
        self.json.as_str()
    }
}

} // verus!
