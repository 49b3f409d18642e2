//! The ordered keys that place a document in a partition.
use crate::text::decimal;
use crate::text::decimal_string;
use vstd::prelude::*;

verus! {

/// The error type of `serde_json`. It is carried from the encoder to the
/// caller and never looked into.
#[verifier::external_type_specification]
#[verifier::external_body]
pub struct ExJsonError(serde_json::Error);

/// What `serde_json::to_string` gives for the string `key`: the JSON text,
/// which is the string in double quotes with the characters that JSON
/// reserves escaped, or nothing where the encoder fails.
pub uninterp spec fn json_string_text(key: Seq<char>) -> Option<Seq<char>>;

/// Calls `serde_json::to_string` on a string slice. Whether it succeeds and
/// what it writes depend on the slice alone, so the outcome is the named one.
/// Of the error nothing is claimed.
#[verifier::external_body]
fn encode_json_string(key: &str) -> (json: Result<String, serde_json::Error>)
    ensures
        match json {
            Ok(text) => json_string_text(key@) == Some(text@),
            Err(_) => json_string_text(key@) is None,
        },
{
    serde_json::to_string(key)
}

/// A key could not be written as JSON.
#[derive(Debug, Clone, Copy, PartialEq, Eq, Structural)]
pub struct KeyEncodingError;

/// The keys joined by commas.
pub open spec fn comma_separated(keys: Seq<Seq<char>>) -> Seq<char>
    decreases keys.len(),
{
    if keys.len() == 0 {
        Seq::empty()
    } else if keys.len() == 1 {
        keys[0]
    } else {
        comma_separated(keys.drop_last()) + ","@ + keys.last()
    }
}

/// The JSON array that lists the keys, each given as JSON text, in order.
pub open spec fn json_array(keys: Seq<Seq<char>>) -> Seq<char> {
    "["@ + comma_separated(keys) + "]"@
}

/// The keys of one document, in the order of the collection's partition key
/// paths. Each key is held as its JSON text.
#[derive(Debug)]
pub struct PartitionKeys {
    keys: Vec<String>,
}

impl View for PartitionKeys {
    type V = Seq<Seq<char>>;

    closed spec fn view(&self) -> Seq<Seq<char>> {
        Seq::new(self.keys@.len(), |i: int| self.keys@[i]@)
    }
}

impl PartitionKeys {
    /// No keys.
    pub fn new() -> (keys: PartitionKeys)
        ensures
            keys@ == Seq::<Seq<char>>::empty(),
    {
        let keys = PartitionKeys { keys: Vec::new() };
        assert(keys@ =~= Seq::<Seq<char>>::empty());
        keys
    }

    /// The number of keys.
    pub fn len(&self) -> (len: usize)
        ensures
            len == self@.len(),
    {
        self.keys.len()
    }

    /// Adds a key that is already JSON text.
    pub fn push_json(&mut self, json: String)
        ensures
            final(self)@ == old(self)@.push(json@),
    {
        self.keys.push(json);
        assert(self@ =~= old(self)@.push(json@));
    }

    /// Adds a key given the outcome of encoding it: the key is added if the
    /// encoding succeeded, and nothing changes if it failed.
    pub fn push_encoded(&mut self, encoded: Result<String, serde_json::Error>) -> (pushed: Result<
        (),
        KeyEncodingError,
    >)
        ensures
            match encoded {
                Ok(json) => pushed is Ok && final(self)@ == old(self)@.push(json@),
                Err(_) => pushed == Err::<(), KeyEncodingError>(KeyEncodingError) && final(self)@
                    == old(self)@,
            },
    {
        match encoded {
            Ok(json) => {
                self.push_json(json);
                Ok(())
            },
            Err(_) => Err(KeyEncodingError),
        }
    }

    /// Adds a string key as its JSON text. Where the encoder has a text for
    /// `key`, that text becomes the last key; where it has none, the keys stay
    /// as they are and the failure is reported.
    pub fn push(&mut self, key: &str) -> (pushed: Result<(), KeyEncodingError>)
        ensures
            match json_string_text(key@) {
                Some(text) => pushed is Ok && final(self)@ == old(self)@.push(text),
                None => pushed == Err::<(), KeyEncodingError>(KeyEncodingError) && final(self)@
                    == old(self)@,
            },
    {
        let encoded = encode_json_string(key);
        self.push_encoded(encoded)
    }

    /// Adds a numeric key, written in decimal.
    pub fn push_number(&mut self, key: u64)
        ensures
            final(self)@ == old(self)@.push(decimal(key as nat)),
    {
        self.push_json(decimal_string(key));
    }

    /// The keys as one JSON array, in order.
    pub fn to_json(&self) -> (json: String)
        ensures
            json@ == json_array(self@),
    {
        let mut json = String::from_str("[");
        let mut i: usize = 0;
        while i < self.keys.len()
            invariant
                i <= self.keys.len(),
                json@ == "["@ + comma_separated(self@.take(i as int)),
            decreases self.keys.len() - i,
        {
            if i > 0 {
                json.append(",");
            }
            json.append(self.keys[i].as_str());
            proof {
                let before = self@.take(i as int);
                let after = self@.take(i + 1);
                assert(after.drop_last() =~= before);
                assert(after.last() == self.keys@[i as int]@);
                if i == 0 {
                    assert(before =~= Seq::<Seq<char>>::empty());
                    assert(json@ =~= "["@ + comma_separated(after));
                } else {
                    assert(json@ =~= "["@ + comma_separated(after));
                }
            }
            i += 1;
        }
        assert(self@.take(i as int) =~= self@);
        json.append("]");
        json
    }
}

} // verus!
