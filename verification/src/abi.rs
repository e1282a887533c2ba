//! Contract artifacts and the interface descriptions extracted from them.
//!
//! An artifact is a per-contract JSON blob. Two artifact shapes are in
//! circulation: a bare interface array, and an object that wraps the array
//! under an `abi` field beside compiler metadata. Both are accepted, told
//! apart by the presence of the `abi` key.
//!
//! The interface section is handed to the chain tooling's ABI reader only
//! when it is *tame* (see [`tame_interface_text`]): that reader slices type
//! strings at character positions taken as byte offsets, underflows on a
//! bracket with no opening partner, and recurses once per array suffix and
//! tuple level, so an untamed section could make it panic or exhaust the
//! stack instead of returning an error. A section that is not tame is
//! refused as a malformed interface; every compiler-produced interface is
//! tame.

use vstd::prelude::*;
use vstd::string::StrSliceExecFns;
use crate::errors::RegistryError;

verus! {

/// The parsed interface type of the chain tooling, `ethers::abi::Abi`.
/// Opaque here: the registry carries such a value through to the handle and
/// reasons about the interface via its canonical text instead.
#[verifier::external_type_specification]
#[verifier::external_body]
pub struct ExAbi(ethers::abi::Abi);

/// One contract's compiled artifact, as the JSON text the artifact producer
/// wrote. Nothing is promised of the text; it is validated when loaded.
#[derive(Clone, Debug)]
pub struct ContractArtifact {
    /// The JSON text of the artifact.
    pub text: String,
}

impl View for ContractArtifact {
    type V = Seq<char>;

    open spec fn view(&self) -> Seq<char> {
        self.text@
    }
}

impl ContractArtifact {
    /// Wrap a JSON blob as a contract artifact.
    pub fn new(text: String) -> (r: ContractArtifact)
        ensures
            r@ == text@,
    {
        ContractArtifact { text }
    }
}

/// A contract interface: the parsed description the chain tooling consumes,
/// together with its canonical JSON text, which serves as the mathematical
/// model of the interface.
#[derive(Debug)]
pub struct LoadedAbi {
    /// The parsed interface, ready for the chain tooling.
    pub inner: ethers::abi::Abi,
    /// The interface serialized back to canonical JSON.
    pub canonical: String,
}

impl View for LoadedAbi {
    type V = Seq<char>;

    open spec fn view(&self) -> Seq<char> {
        self.canonical@
    }
}

/// How many array-suffix groups a quoted string of an interface may carry.
/// The ABI type reader recurses once per group; this bound keeps that
/// recursion shallow. Solidity tooling nests arrays nowhere near as deep.
pub const MAX_SUFFIX_GROUPS: u32 = 32;

/// Where the interface scanner stands in the text.
#[derive(Copy, Clone, Debug, PartialEq, Eq, Structural)]
pub enum ScanState {
    /// Between quoted strings, in the JSON structure itself.
    Outside,
    /// Inside a quoted string, reading its base name.
    Name,
    /// Inside a `[` … `]` group of a quoted string; `groups` opened so far.
    Group { groups: u32 },
    /// Right after a closed group; only another group or the closing quote
    /// may follow.
    Suffix { groups: u32 },
    /// The text is not tame.
    Refused,
}

/// One step of the interface scanner. A byte outside the single-byte range,
/// a backslash or a parenthesis refuses the text wherever it stands; inside
/// a quoted string, only a base name followed by at most
/// `MAX_SUFFIX_GROUPS` groups of `[` digits `]` is accepted.
pub open spec fn scan_step(st: ScanState, b: u8) -> ScanState {
    if b >= 128 || b == '\\' as u8 || b == '(' as u8 || b == ')' as u8 {
        ScanState::Refused
    } else {
        match st {
            ScanState::Outside => if b == '"' as u8 {
                ScanState::Name
            } else {
                ScanState::Outside
            },
            ScanState::Name => if b == '"' as u8 {
                ScanState::Outside
            } else if b == '[' as u8 {
                ScanState::Group { groups: 1 }
            } else if b == ']' as u8 {
                ScanState::Refused
            } else {
                ScanState::Name
            },
            ScanState::Group { groups } => if b == ']' as u8 {
                ScanState::Suffix { groups }
            } else if '0' as u8 <= b && b <= '9' as u8 {
                ScanState::Group { groups }
            } else {
                ScanState::Refused
            },
            ScanState::Suffix { groups } => if b == '"' as u8 {
                ScanState::Outside
            } else if b == '[' as u8 {
                if groups >= MAX_SUFFIX_GROUPS {
                    ScanState::Refused
                } else {
                    ScanState::Group { groups: (groups + 1) as u32 }
                }
            } else {
                ScanState::Refused
            },
            ScanState::Refused => ScanState::Refused,
        }
    }
}

/// The scanner run over the bytes from position `i` onward.
pub open spec fn scan_from(bytes: Seq<u8>, i: int, st: ScanState) -> ScanState
    decreases bytes.len() - i,
{
    if i < 0 || i >= bytes.len() {
        st
    } else {
        scan_from(bytes, i + 1, scan_step(st, bytes[i]))
    }
}

/// Whether an interface text is tame: single-byte characters throughout, no
/// backslash escape and no parenthesis anywhere, quotes balanced, and every
/// quoted string a base name followed by at most `MAX_SUFFIX_GROUPS` groups
/// of `[` digits `]`. On such text, every string the ABI type reader can be
/// handed stays in the domain where it returns without panicking and with
/// shallow recursion.
pub open spec fn tame_interface_text(s: Seq<char>) -> bool {
    &&& vstd::utf8::is_ascii_chars(s)
    &&& scan_from(Seq::new(s.len(), |i: int| s[i] as u8), 0, ScanState::Outside)
        == ScanState::Outside
}

/// One step of the interface scanner, executable.
fn scan_step_exec(st: ScanState, b: u8) -> (r: ScanState)
    ensures
        r == scan_step(st, b),
{
    if b >= 128 || b == '\\' as u8 || b == '(' as u8 || b == ')' as u8 {
        return ScanState::Refused;
    }
    match st {
        ScanState::Outside => if b == '"' as u8 {
            ScanState::Name
        } else {
            ScanState::Outside
        },
        ScanState::Name => if b == '"' as u8 {
            ScanState::Outside
        } else if b == '[' as u8 {
            ScanState::Group { groups: 1 }
        } else if b == ']' as u8 {
            ScanState::Refused
        } else {
            ScanState::Name
        },
        ScanState::Group { groups } => if b == ']' as u8 {
            ScanState::Suffix { groups }
        } else if '0' as u8 <= b && b <= '9' as u8 {
            ScanState::Group { groups }
        } else {
            ScanState::Refused
        },
        ScanState::Suffix { groups } => if b == '"' as u8 {
            ScanState::Outside
        } else if b == '[' as u8 {
            if groups >= MAX_SUFFIX_GROUPS {
                ScanState::Refused
            } else {
                ScanState::Group { groups: groups + 1 }
            }
        } else {
            ScanState::Refused
        },
        ScanState::Refused => ScanState::Refused,
    }
}

/// Decide whether an interface text is tame.
pub fn is_tame_interface_text(s: &str) -> (r: bool)
    ensures
        r == tame_interface_text(s@),
{
    broadcast use vstd::string::is_ascii_spec_bytes;

    if !s.is_ascii() {
        return false;
    }
    let bytes = s.as_bytes_vec();
    proof {
        assert(bytes@ =~= Seq::new(s@.len(), |i: int| s@[i] as u8));
    }
    let n = bytes.len();
    let mut st = ScanState::Outside;
    let mut i: usize = 0;
    while i < n
        invariant
            n == bytes@.len(),
            i <= n,
            scan_from(bytes@, 0, ScanState::Outside) == scan_from(bytes@, i as int, st),
        decreases n - i,
    {
        let b = bytes[i];
        proof {
            assert(scan_from(bytes@, i as int, st) == scan_from(
                bytes@,
                i as int + 1,
                scan_step(st, bytes@[i as int]),
            ));
        }
        st = scan_step_exec(st, b);
        i = i + 1;
    }
    st == ScanState::Outside
}

/// The canonical text of the section a JSON document holds under a key:
/// `None` when the document does not parse as JSON; otherwise the value
/// under `key` when the document is an object holding that key, the whole
/// document when it is not, written back out as canonical JSON.
pub uninterp spec fn json_section_of(text: Seq<char>, key: Seq<char>) -> Option<Seq<char>>;

/// Relies on serde_json: `from_str` decides whether the text is JSON,
/// `Value::get` takes the value under `key` when the document is an object
/// holding it (the whole document stands otherwise), and `to_string` writes
/// the chosen value back out. All three are deterministic in the two
/// arguments, and none panics: serde_json parses and writes with a
/// recursion limit.
#[verifier::external_body]
fn json_section(text: &str, key: &str) -> (r: Option<String>)
    ensures
        r is Some <==> json_section_of(text@, key@) is Some,
        r matches Some(s) ==> s@ == json_section_of(text@, key@)->Some_0,
{
    let doc: serde_json::Value = match serde_json::from_str(text) {
        Ok(v) => v,
        Err(_) => return None,
    };
    let section = match doc.get(key) {
        Some(sub) => sub.clone(),
        None => doc,
    };
    serde_json::to_string(&section).ok()
}

/// What a tame interface section describes: `None` when it does not parse
/// as a contract interface, `Some(canon)` when it does, with `canon` the
/// canonical JSON text of the parsed interface.
pub uninterp spec fn abi_of_section(section: Seq<char>) -> Option<Seq<char>>;

/// Relies on serde_json's `from_str` into `ethers::abi::Abi` — the ABI
/// deserializer of ethers — and on `serde_json::to_string` back out of it;
/// both deterministic in the section text. The tameness precondition keeps
/// the call from panicking: the ABI type reader slices type strings at
/// character positions taken as byte offsets, subtracts below zero on a
/// closing bracket with no partner, and recurses once per array suffix and
/// tuple level. On tame text every string it can see is single-byte, free
/// of parentheses, and a name with at most a bounded run of `[` digits `]`
/// groups, so every slice lands on a character boundary, every strip finds
/// its bracket, and the recursion stays shallow.
#[verifier::external_body]
fn parse_interface(section: &str) -> (r: Option<(ethers::abi::Abi, String)>)
    requires
        tame_interface_text(section@),
    ensures
        r is Some <==> abi_of_section(section@) is Some,
        r matches Some(p) ==> p.1@ == abi_of_section(section@)->Some_0,
{
    let abi: ethers::abi::Abi = match serde_json::from_str(section) {
        Ok(a) => a,
        Err(_) => return None,
    };
    serde_json::to_string(&abi).ok().map(|canonical| (abi, canonical))
}

/// What loading an artifact text yields: `None` when the text does not
/// parse as JSON; `Some(None)` when the interface section — the value under
/// `abi` when that key is present, the whole document otherwise — is not
/// tame or does not describe an interface; `Some(Some(canon))` when it
/// does, with `canon` the canonical JSON text of the parsed interface.
pub open spec fn abi_of_artifact(text: Seq<char>) -> Option<Option<Seq<char>>> {
    match json_section_of(text, "abi"@) {
        Option::None => Option::None,
        Option::Some(section) => Option::Some(
            if !tame_interface_text(section) {
                Option::None
            } else {
                abi_of_section(section)
            },
        ),
    }
}

/// Load the contract interface out of an artifact.
///
/// The artifact must parse as JSON; the interface section — the value under
/// `abi` when that key is present, the whole document otherwise — must be
/// tame and describe a contract interface. The two failures are told apart,
/// a section that is not tame is refused rather than handed to the reader,
/// and a loaded interface's model is pinned to the artifact text.
pub fn load_abi(artifact: &ContractArtifact) -> (r: Result<LoadedAbi, RegistryError>)
    ensures
        abi_of_artifact(artifact@) is None ==> r == Err::<LoadedAbi, RegistryError>(
            RegistryError::MalformedArtifact,
        ),
        abi_of_artifact(artifact@) matches Some(section) ==> {
            &&& section is None ==> r == Err::<LoadedAbi, RegistryError>(RegistryError::MalformedAbi)
            &&& section matches Some(canon) ==> (r matches Ok(abi) && abi@ == canon)
        },
{
    match json_section(artifact.text.as_str(), "abi") {
        None => Err(RegistryError::MalformedArtifact),
        Some(section) => {
            if !is_tame_interface_text(section.as_str()) {
                Err(RegistryError::MalformedAbi)
            } else {
                match parse_interface(section.as_str()) {
                    None => Err(RegistryError::MalformedAbi),
                    Some((inner, canonical)) => Ok(LoadedAbi { inner, canonical }),
                }
            }
        },
    }
}

} // verus!
