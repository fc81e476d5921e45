//! The boundary to the Soroban host.
//!
//! The types of `soroban_sdk` are opaque here. What the contracts need to
//! say about their values is said through a few uninterpreted functions,
//! and each call into the SDK is a small function whose contract is
//! believed, not proved.
//!
//! An `Env` is a handle that can be copied, and a write through one copy is
//! seen through all of them. So the library does not work on an `Env`: it
//! works on a [`Host`], which takes the handle in and gives it to nobody.
//! What the host keeps is then a matter of the one `Host` value, and a
//! `&mut Host` is the only way to change it.
//!
//! The host ends an invocation, instead of returning, when the budget of
//! the invocation is spent. No argument decides that, so the contracts
//! below describe the calls that return.

use soroban_sdk::{Address, Env, Symbol};
use vstd::prelude::*;

verus! {

/// `soroban_sdk::Env`, the handle to the host.
#[verifier::external_type_specification]
#[verifier::external_body]
pub struct ExEnv(soroban_sdk::Env);

/// `soroban_sdk::Address`, the identity of an account or of a contract.
#[verifier::external_type_specification]
#[verifier::external_body]
pub struct ExAddress(soroban_sdk::Address);

/// `soroban_sdk::Symbol`, a short text of letters, digits and `_`.
#[verifier::external_type_specification]
#[verifier::external_body]
pub struct ExSymbol(soroban_sdk::Symbol);

/// `soroban_sdk::Vec`, a vector that the host keeps.
#[verifier::external_type_specification]
#[verifier::external_body]
#[verifier::reject_recursive_types(T)]
pub struct ExVec<T>(soroban_sdk::Vec<T>);

/// The host, as the library holds it: the one handle through which the
/// contract reads and writes.
///
/// The caller hands its `Env` over to [`Host::new`] and, while the `Host`
/// lives, writes to the host through no copy of the handle that it kept.
/// The `Host` cannot be copied and does not give the handle out.
#[verifier::external_body]
pub struct Host {
    env: Env,
}

/// Whether a contract is running on the host: whether the host is inside
/// an invocation, the only time at which it gives access to storage.
pub uninterp spec fn contract_running(host: Host) -> bool;

/// Whether the instance storage of the running contract holds nothing but
/// a `u32` under each address that is a key in it.
pub uninterp spec fn holds_u32_under_addresses(host: Host) -> bool;

/// Whether the address is an object of this host, and not of another one.
pub uninterp spec fn address_of(host: Host, address: Address) -> bool;

/// Whether the host can read the symbol: it is a small symbol, which holds
/// its own characters, or it is an object of this host.
pub uninterp spec fn symbol_of(host: Host, symbol: Symbol) -> bool;

/// The characters of a symbol, in order: what `Symbol::to_string` gives.
pub uninterp spec fn symbol_text(symbol: Symbol) -> Seq<char>;

/// The texts of the symbols that a host vector holds, in order.
pub uninterp spec fn symbol_texts(symbols: soroban_sdk::Vec<Symbol>) -> Seq<Seq<char>>;

/// The strkey of an address: what `Address::to_string` gives. The host
/// takes two addresses for the same key exactly when they name the same
/// account or contract, which is when their strkeys are equal.
pub uninterp spec fn address_strkey(address: Address) -> Seq<char>;

/// What the instance storage of the running contract holds under
/// addresses as a `u32`, each address given by its strkey.
pub uninterp spec fn instance_values(host: Host) -> Map<Seq<char>, u32>;

/// What the instance storage of the running contract holds under the keys
/// that are no addresses: each key and each value by its XDR encoding.
pub uninterp spec fn instance_others(host: Host) -> Map<Seq<u8>, Seq<u8>>;

/// What the persistent storage of the running contract holds: each key and
/// each value by its XDR encoding.
pub uninterp spec fn persistent_entries(host: Host) -> Map<Seq<u8>, Seq<u8>>;

/// What the temporary storage of the running contract holds: each key and
/// each value by its XDR encoding.
pub uninterp spec fn temporary_entries(host: Host) -> Map<Seq<u8>, Seq<u8>>;

/// The characters that a symbol may hold: ASCII letters, digits and `_`.
pub open spec fn is_symbol_char(c: char) -> bool {
    ||| 'a' <= c <= 'z'
    ||| 'A' <= c <= 'Z'
    ||| '0' <= c <= '9'
    ||| c == '_'
}

/// The texts that fit a small symbol: at most nine symbol characters.
pub open spec fn is_short_symbol_text(text: Seq<char>) -> bool {
    &&& text.len() <= 9
    &&& forall|i: int| 0 <= i < text.len() ==> is_symbol_char(#[trigger] text[i])
}

/// What a write to the values under addresses leaves as it was: the rest
/// of the storage of the running contract, that the contract is running
/// and keeps nothing but `u32` under addresses, and which addresses and
/// symbols are the host's.
pub open spec fn kept_but_values(before: Host, after: Host) -> bool {
    &&& instance_others(after) == instance_others(before)
    &&& persistent_entries(after) == persistent_entries(before)
    &&& temporary_entries(after) == temporary_entries(before)
    &&& contract_running(after)
    &&& holds_u32_under_addresses(after)
    &&& forall|address: Address| address_of(before, address) ==> #[trigger] address_of(after, address)
    &&& forall|symbol: Symbol| symbol_of(before, symbol) ==> #[trigger] symbol_of(after, symbol)
}

/// Takes the handle in. Nothing is asked of the `Env` and nothing is known
/// of the host behind it: the body only moves the handle into the field.
#[verifier::external_body]
fn hold(env: Env) -> (host: Host) {
    Host { env }
}

/// `Symbol::short`, the function behind `symbol_short!`.
///
/// Trusted: for a text of at most nine symbol characters the SDK packs the
/// characters into a small symbol, and the symbol reads back as that text.
/// A small symbol holds its characters in its own value, so every host can
/// read it. On any other text the SDK panics, so such a text is not
/// accepted.
#[verifier::external_body]
#[allow(deprecated)]
pub(crate) fn short_symbol(text: &str) -> (symbol: Symbol)
    requires
        is_short_symbol_text(text@),
    ensures
        symbol_text(symbol) == text@,
        forall|host: Host| #[trigger] symbol_of(host, symbol),
{
    Symbol::short(text)
}

/// `Vec::from_array` on two symbols, as `vec![env, first, second]` calls it.
///
/// Trusted: the host makes a vector of exactly the two values, in the order
/// given, and a symbol read from the vector has the text of the one put in.
/// The SDK passes each symbol on as its raw value, which for a symbol
/// object of another host this host refuses or takes for an object of its
/// own; so both symbols have to be ones that this host can read. The call
/// needs no running contract and touches no storage.
#[verifier::external_body]
pub(crate) fn symbol_pair(host: &Host, first: Symbol, second: Symbol) -> (pair: soroban_sdk::Vec<
    Symbol,
>)
    requires
        symbol_of(*host, first),
        symbol_of(*host, second),
    ensures
        symbol_texts(pair) == seq![symbol_text(first), symbol_text(second)],
{
    soroban_sdk::Vec::from_array(&host.env, [first, second])
}

/// `Instance::set`, reached through `Env::storage` and `Storage::instance`,
/// with an address for the key and a `u32` for the value.
///
/// Trusted: the host puts the value under the key into the instance storage
/// of the running contract, in place of what the key held, and that is all
/// it writes: the other keys of the instance storage and the persistent and
/// temporary storage stay as they were, the contract goes on running, and
/// no object of the host goes away. Without a running contract the SDK
/// panics; the raw value of an address of another host is refused by this
/// host or taken for an object of its own. Neither is accepted.
#[verifier::external_body]
pub(crate) fn instance_set(host: &mut Host, user: &Address, value: u32)
    requires
        contract_running(*old(host)),
        holds_u32_under_addresses(*old(host)),
        address_of(*old(host), *user),
    ensures
        instance_values(*final(host)) == instance_values(*old(host)).insert(
            address_strkey(*user),
            value,
        ),
        instance_others(*final(host)) == instance_others(*old(host)),
        persistent_entries(*final(host)) == persistent_entries(*old(host)),
        temporary_entries(*final(host)) == temporary_entries(*old(host)),
        contract_running(*final(host)),
        holds_u32_under_addresses(*final(host)),
        forall|address: Address|
            address_of(*old(host), address) ==> #[trigger] address_of(*final(host), address),
        forall|symbol: Symbol|
            symbol_of(*old(host), symbol) ==> #[trigger] symbol_of(*final(host), symbol),
{
    host.env.storage().instance().set(user, &value);
}

/// `Instance::get`, reached through `Env::storage` and `Storage::instance`,
/// with an address for the key, read as a `u32`.
///
/// Trusted: the SDK first asks the host whether the instance storage of
/// the running contract has the key; it returns `None` when it has not, and
/// else the value under the key. The storage stays as it was. The SDK
/// panics without a running contract and on a value that is no `u32`; the
/// raw value of an address of another host is refused by this host or taken
/// for an object of its own. None of these is accepted.
#[verifier::external_body]
pub(crate) fn instance_get(host: &Host, user: &Address) -> (value: Option<u32>)
    requires
        contract_running(*host),
        holds_u32_under_addresses(*host),
        address_of(*host, *user),
    ensures
        value == if instance_values(*host).dom().contains(address_strkey(*user)) {
            Some(instance_values(*host)[address_strkey(*user)])
        } else {
            None
        },
{
    host.env.storage().instance().get(user)
}

impl Host {
    /// Takes over the handle to the host. From here on the caller reaches
    /// the host through this `Host`.
    ///
    /// Nothing is known of a host that was just taken over: whether a
    /// contract is running on it is for the caller to know.
    pub fn new(env: Env) -> (host: Host) {
        hold(env)
    }
}

} // verus!
