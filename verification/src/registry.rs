//! The contract registry: one address book per network, a catalogue of
//! artifacts by contract name, and the lookup that composes them into a
//! ready-to-use contract handle.

use vstd::prelude::*;
use crate::abi::{abi_of_artifact, load_abi, ContractArtifact, LoadedAbi};
use crate::address::{address_bytes_of, is_valid_address_text, Address};
use crate::book::{book_entry_of, lookup_address, AddressBook};
use crate::errors::RegistryError;
use crate::network::Network;
use crate::text::str_eq;

verus! {

/// The registry's immutable data: the address-book blob of each network and
/// the artifact blob catalogued under each contract name. How the blobs got
/// into memory is the caller's business; the registry only reads them.
pub struct Registry {
    /// The mainnet address book.
    pub mainnet: AddressBook,
    /// The kepler address book.
    pub kepler: AddressBook,
    /// The testnet address book.
    pub testnet: AddressBook,
    /// The catalogued artifacts, one per contract name.
    pub artifacts: Vec<(String, ContractArtifact)>,
}

/// The artifact text catalogued under a name: the first entry carrying it.
pub open spec fn artifact_in(
    entries: Seq<(String, ContractArtifact)>,
    name: Seq<char>,
) -> Option<Seq<char>>
    decreases entries.len(),
{
    if entries.len() == 0 {
        None
    } else if entries[0].0@ == name {
        Some(entries[0].1@)
    } else {
        artifact_in(entries.skip(1), name)
    }
}

/// Entries whose first `i` names all miss can be skipped without changing
/// what the catalogue holds for the name.
proof fn lemma_artifact_in_prefix(
    entries: Seq<(String, ContractArtifact)>,
    name: Seq<char>,
    i: int,
)
    requires
        0 <= i <= entries.len(),
        forall|j: int| 0 <= j < i ==> (#[trigger] entries[j].0)@ != name,
    ensures
        artifact_in(entries, name) == artifact_in(entries.skip(i), name),
    decreases i,
{
    if i == 0 {
        assert(entries.skip(0) =~= entries);
    } else {
        lemma_artifact_in_prefix(entries, name, i - 1);
        assert(entries.skip(i - 1)[0] == entries[i - 1]);
        assert(entries.skip(i - 1).skip(1) =~= entries.skip(i));
    }
}

impl Registry {
    /// The address-book text the registry holds for a network.
    pub open spec fn spec_book(&self, network: Network) -> Seq<char> {
        match network {
            Network::Mainnet => self.mainnet@,
            Network::Kepler => self.kepler@,
            Network::Testnet => self.testnet@,
        }
    }

    /// Select the address book of a network.
    pub fn book(&self, network: Network) -> (r: &AddressBook)
        ensures
            r@ == self.spec_book(network),
    {
        match network {
            Network::Mainnet => &self.mainnet,
            Network::Kepler => &self.kepler,
            Network::Testnet => &self.testnet,
        }
    }

    /// The artifact catalogued under a contract name, if any.
    pub fn artifact(&self, name: &str) -> (r: Option<&ContractArtifact>)
        ensures
            r is Some <==> artifact_in(self.artifacts@, name@) is Some,
            r matches Some(a) ==> a@ == artifact_in(self.artifacts@, name@)->Some_0,
    {
        let n = self.artifacts.len();
        let mut i: usize = 0;
        while i < n
            invariant
                n == self.artifacts@.len(),
                i <= n,
                forall|j: int| 0 <= j < i ==> (#[trigger] self.artifacts@[j].0)@ != name@,
            decreases n - i,
        {
            if str_eq(self.artifacts[i].0.as_str(), name) {
                proof {
                    lemma_artifact_in_prefix(self.artifacts@, name@, i as int);
                    assert(self.artifacts@.skip(i as int)[0] == self.artifacts@[i as int]);
                }
                return Some(&self.artifacts[i].1);
            }
            i = i + 1;
        }
        proof {
            lemma_artifact_in_prefix(self.artifacts@, name@, n as int);
        }
        None
    }
}

/// The output of the registry: a deployed address and a loaded interface,
/// bound to the caller-supplied client. The registry does not own or mutate
/// the client; it only moves it into the handle.
#[derive(Debug)]
pub struct ContractHandle<C> {
    /// The contract's deployed address on the chosen network.
    pub address: Address,
    /// The contract's loaded interface.
    pub abi: LoadedAbi,
    /// The client the handle is bound to.
    pub client: C,
}

/// The outcome the registry's data assigns to a lookup: the address bytes
/// and the canonical interface text, or the first error in the order the
/// lookup works — address book, address text, catalogue, artifact.
pub open spec fn spec_build(
    book: Seq<char>,
    artifact: Option<Seq<char>>,
    name: Seq<char>,
) -> Result<(Seq<u8>, Seq<char>), RegistryError> {
    match book_entry_of(book, name) {
        Option::None => Result::Err(RegistryError::MalformedAddressBook),
        Option::Some(entry) => match entry {
            Option::None => Result::Err(RegistryError::UnknownContract),
            Option::Some(s) => if !is_valid_address_text(s) {
                Result::Err(RegistryError::InvalidAddressFormat)
            } else {
                match artifact {
                    Option::None => Result::Err(RegistryError::UnknownContract),
                    Option::Some(text) => match abi_of_artifact(text) {
                        Option::None => Result::Err(RegistryError::MalformedArtifact),
                        Option::Some(section) => match section {
                            Option::None => Result::Err(RegistryError::MalformedAbi),
                            Option::Some(canon) => Result::Ok((address_bytes_of(s), canon)),
                        },
                    },
                }
            },
        },
    }
}

/// What `build_handle` yields on a registry, network and name.
pub open spec fn spec_handle_model(reg: Registry, network: Network, name: Seq<char>) -> Result<
    (Seq<u8>, Seq<char>),
    RegistryError,
> {
    spec_build(reg.spec_book(network), artifact_in(reg.artifacts@, name), name)
}

/// The relation `build_handle` establishes between its inputs and its result:
/// success exactly when the model succeeds, the handle's address and
/// interface pinned to the model, and on failure the model's own error.
pub open spec fn build_handle_post<C>(
    reg: Registry,
    network: Network,
    name: Seq<char>,
    r: Result<ContractHandle<C>, RegistryError>,
) -> bool {
    &&& (r is Ok <==> spec_handle_model(reg, network, name) is Ok)
    &&& (r matches Result::Ok(h) ==> {
        &&& h.address.wf()
        &&& h.address@ == spec_handle_model(reg, network, name)->Ok_0.0
        &&& h.abi@ == spec_handle_model(reg, network, name)->Ok_0.1
    })
    &&& (r matches Result::Err(e) ==> spec_handle_model(reg, network, name) == Result::Err::<
        (Seq<u8>, Seq<char>),
        RegistryError,
    >(e))
}

impl Registry {
    /// Compose the whole lookup: select the network's address book, look the
    /// contract's address up, load its interface, and bind both to the
    /// caller's client. Every failure surfaces as the sub-operation's error;
    /// nothing panics.
    pub fn build_handle<C>(&self, network: Network, name: &str, client: C) -> (r: Result<
        ContractHandle<C>,
        RegistryError,
    >)
        ensures
            build_handle_post(*self, network, name@, r),
            r matches Result::Ok(h) ==> h.client == client,
    {
        let book = self.book(network);
        let address = match lookup_address(book, name) {
            Ok(a) => a,
            Err(e) => return Err(e),
        };
        let artifact = match self.artifact(name) {
            Some(a) => a,
            None => return Err(RegistryError::UnknownContract),
        };
        let abi = match load_abi(artifact) {
            Ok(a) => a,
            Err(e) => return Err(e),
        };
        Ok(ContractHandle { address, abi, client })
    }
}

/// Law: the registry is stateless. Building a handle twice from the same
/// registry, network and contract name yields the same outcome — the same
/// error, or two handles with the same address and the same interface model,
/// whatever clients they are bound to.
pub proof fn lemma_build_handle_idempotent<C1, C2>(
    reg: Registry,
    network: Network,
    name: Seq<char>,
    r1: Result<ContractHandle<C1>, RegistryError>,
    r2: Result<ContractHandle<C2>, RegistryError>,
)
    requires
        build_handle_post(reg, network, name, r1),
        build_handle_post(reg, network, name, r2),
    ensures
        r1 is Ok <==> r2 is Ok,
        r1 matches Result::Ok(h1) ==> (r2 matches Result::Ok(h2) && h1.address@ == h2.address@
            && h1.abi@ == h2.abi@),
        r1 matches Result::Err(e1) ==> (r2 matches Result::Err(e2) && e1 == e2),
{
}

} // verus!
