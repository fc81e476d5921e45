//! The entry points of the contract.

use crate::entries::{value_at, written};
use crate::host::{
    address_of, address_strkey, contract_running, holds_u32_under_addresses, instance_get,
    instance_set, instance_values, kept_but_values, short_symbol, symbol_of, symbol_pair,
    symbol_text, symbol_texts, Host,
};
use soroban_sdk::{Address, Symbol};
use vstd::prelude::*;

verus! {

/// The text of the greeting word.
pub open spec fn hello_text() -> Seq<char> {
    seq!['H', 'e', 'l', 'l', 'o']
}

/// The text of the greeting word is the string `"Hello"`.
pub proof fn lemma_hello_text()
    ensures
        hello_text() == "Hello"@,
        crate::host::is_short_symbol_text(hello_text()),
{
    reveal_strlit("Hello");
    assert("Hello"@ =~= hello_text());
}

/// The greeting for `name`: the word `Hello`, then the name.
pub open spec fn greeting(name: Seq<char>) -> Seq<Seq<char>> {
    seq![hello_text(), name]
}

/// The contract: a greeting, and one `u32` kept for each address in the
/// instance storage of the contract.
pub struct HelloContract;

impl HelloContract {
    /// Greets `to`: returns the symbol `Hello` followed by `to`.
    ///
    /// `to` has to be a symbol that the host can read, as every symbol is
    /// that the host hands to the contract. The host is only read: its
    /// storage stays as it was.
    pub fn hello(host: &Host, to: Symbol) -> (words: soroban_sdk::Vec<Symbol>)
        requires
            symbol_of(*host, to),
        ensures
            symbol_texts(words) == greeting(symbol_text(to)),
    {
        proof {
            lemma_hello_text();
        }
        let word = short_symbol("Hello");
        symbol_pair(host, word, to)
    }

    /// Puts `value` under `user`, in place of any value that `user` had,
    /// and writes nothing else: the values of all other addresses and the
    /// rest of the storage stay as they were.
    ///
    /// The host has to be running the contract, and `user` has to be an
    /// address of this host. Whether the caller is `user` is not checked.
    pub fn store(host: &mut Host, user: Address, value: u32)
        requires
            contract_running(*old(host)),
            holds_u32_under_addresses(*old(host)),
            address_of(*old(host), user),
        ensures
            instance_values(*final(host)) == written(
                instance_values(*old(host)),
                address_strkey(user),
                value,
            ),
            value_at(instance_values(*final(host)), address_strkey(user)) == Some(value),
            forall|other: Seq<char>|
                other != address_strkey(user) ==> #[trigger] value_at(
                    instance_values(*final(host)),
                    other,
                ) == value_at(instance_values(*old(host)), other),
            kept_but_values(*old(host), *final(host)),
    {
        instance_set(host, &user, value);
    }

    /// Returns the value that was last stored under `user`, and `None` when
    /// none was ever stored. The host is only read.
    ///
    /// The host has to be running the contract, and `user` has to be an
    /// address of this host.
    pub fn get(host: &Host, user: Address) -> (value: Option<u32>)
        requires
            contract_running(*host),
            holds_u32_under_addresses(*host),
            address_of(*host, user),
        ensures
            value == value_at(instance_values(*host), address_strkey(user)),
            value is Some <==> instance_values(*host).dom().contains(address_strkey(user)),
    {
        instance_get(host, &user)
    }
}

} // verus!
