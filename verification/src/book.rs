//! Address books: per-network JSON blobs mapping a contract name to its
//! deployed address record.

use vstd::prelude::*;
use crate::address::{address_bytes_of, is_valid_address_text, parse_address, Address};
use crate::errors::RegistryError;

verus! {

/// One network's address book, as the JSON text the artifact producer wrote.
/// Nothing is promised of the text itself; it is validated at lookup time.
#[derive(Clone, Debug)]
pub struct AddressBook {
    /// The JSON text of the book.
    pub text: String,
}

impl View for AddressBook {
    type V = Seq<char>;

    open spec fn view(&self) -> Seq<char> {
        self.text@
    }
}

impl AddressBook {
    /// Wrap a JSON blob as an address book.
    pub fn new(text: String) -> (r: AddressBook)
        ensures
            r@ == text@,
    {
        AddressBook { text }
    }
}

/// The string found in a JSON document at `doc[key][field]`: `None` when the
/// document does not parse as JSON, `Some(None)` when the key, the field or a
/// string value under them is absent, `Some(Some(s))` when `s` is that string.
pub uninterp spec fn json_string_at(doc: Seq<char>, key: Seq<char>, field: Seq<char>) -> Option<
    Option<Seq<char>>,
>;

/// Relies on serde_json: `from_str` decides whether the document is JSON, and
/// `Value::get` with `Value::as_str` reads the string under the two keys.
/// Both are deterministic in the three arguments.
#[verifier::external_body]
fn lookup_string_at(doc: &str, key: &str, field: &str) -> (r: Option<Option<String>>)
    ensures
        r is Some <==> json_string_at(doc@, key@, field@) is Some,
        r matches Some(entry) ==> {
            &&& entry is Some <==> json_string_at(doc@, key@, field@)->Some_0 is Some
            &&& entry matches Some(s) ==> s@ == json_string_at(doc@, key@, field@)->Some_0->Some_0
        },
{
    let doc: serde_json::Value = match serde_json::from_str(doc) {
        Ok(v) => v,
        Err(_) => return None,
    };
    Some(doc.get(key).and_then(|e| e.get(field)).and_then(|v| v.as_str()).map(|s| s.to_owned()))
}

/// The entry an address book holds for a contract name: the string under
/// `book[name]["address"]`, with the same two layers of absence as
/// `json_string_at`.
pub open spec fn book_entry_of(book: Seq<char>, name: Seq<char>) -> Option<Option<Seq<char>>> {
    json_string_at(book, name, "address"@)
}

/// Look a contract's deployed address up in an address book.
///
/// The book must parse as JSON and hold a string under `name` and `address`;
/// that string must be a fixed-width hex identifier. Each way the data can
/// fall short is reported as its own error, and a well-formed entry is
/// decoded exactly.
pub fn lookup_address(book: &AddressBook, name: &str) -> (r: Result<Address, RegistryError>)
    ensures
        book_entry_of(book@, name@) is None ==> r == Err::<Address, RegistryError>(
            RegistryError::MalformedAddressBook,
        ),
        book_entry_of(book@, name@) matches Some(entry) ==> {
            &&& entry is None ==> r == Err::<Address, RegistryError>(RegistryError::UnknownContract)
            &&& entry matches Some(s) ==> {
                &&& is_valid_address_text(s) ==> (r matches Ok(a) && a.wf() && a@
                    == address_bytes_of(s))
                &&& !is_valid_address_text(s) ==> r == Err::<Address, RegistryError>(
                    RegistryError::InvalidAddressFormat,
                )
            }
        },
{
    match lookup_string_at(book.text.as_str(), name, "address") {
        None => Err(RegistryError::MalformedAddressBook),
        Some(None) => Err(RegistryError::UnknownContract),
        Some(Some(s)) => parse_address(s.as_str()),
    }
}

} // verus!
