//! The contract as the host sees it: registered under an address and
//! invoked by the names of its entry points.

use hello_contract::{HelloContract, Host};
use soroban_sdk::testutils::{Address as _, ContractFunctionSet, EnvTestConfig};
use soroban_sdk::{Address, Env, IntoVal, Symbol, TryFromVal, Val, Vec};

/// The entry points by name, for a host that calls a native contract.
struct Dispatch;

impl ContractFunctionSet for Dispatch {
    fn call(&self, func: &str, env: Env, args: &[Val]) -> Option<Val> {
        match (func, args) {
            ("hello", [to]) => {
                let to = Symbol::try_from_val(&env, to).unwrap();
                let host = Host::new(env.clone());
                let words = HelloContract::hello(&host, to);
                Some(words.into_val(&env))
            }
            ("store", [user, value]) => {
                let user = Address::try_from_val(&env, user).unwrap();
                let value = u32::try_from_val(&env, value).unwrap();
                let mut host = Host::new(env.clone());
                HelloContract::store(&mut host, user, value);
                Some(().into_val(&env))
            }
            ("get", [user]) => {
                let user = Address::try_from_val(&env, user).unwrap();
                let host = Host::new(env.clone());
                let value = HelloContract::get(&host, user);
                Some(value.into_val(&env))
            }
            _ => None,
        }
    }
}

/// What the tests call: the contract at one address of one host.
struct Client {
    env: Env,
    contract_id: Address,
}

impl Client {
    fn new(env: &Env, contract_id: &Address) -> Client {
        Client { env: env.clone(), contract_id: contract_id.clone() }
    }

    fn hello(&self, to: &Symbol) -> Vec<Symbol> {
        let args = Vec::from_array(&self.env, [to.to_val()]);
        self.env.invoke_contract(&self.contract_id, &Symbol::new(&self.env, "hello"), args)
    }

    fn store(&self, user: &Address, value: &u32) {
        let args: Vec<Val> =
            Vec::from_array(&self.env, [user.to_val(), value.into_val(&self.env)]);
        self.env.invoke_contract(&self.contract_id, &Symbol::new(&self.env, "store"), args)
    }

    fn get(&self, user: &Address) -> Option<u32> {
        let args = Vec::from_array(&self.env, [user.to_val()]);
        self.env.invoke_contract(&self.contract_id, &Symbol::new(&self.env, "get"), args)
    }
}

fn quiet_env() -> Env {
    Env::new_with_config(EnvTestConfig { capture_snapshot_at_drop: false })
}

#[test]
fn test_hello() {
    let env = quiet_env();
    let contract_id = env.register_contract(None, Dispatch);
    let client = Client::new(&env, &contract_id);

    let words = client.hello(&Symbol::new(&env, "World"));
    assert_eq!(
        words,
        Vec::from_array(&env, [Symbol::new(&env, "Hello"), Symbol::new(&env, "World")])
    );
}

#[test]
fn test_store_and_get() {
    let env = quiet_env();
    let contract_id = env.register_contract(None, Dispatch);
    let client = Client::new(&env, &contract_id);

    let user = Address::generate(&env);
    let value: u32 = 42;

    // Store value
    client.store(&user, &value);

    // Retrieve value
    let result = client.get(&user);
    assert_eq!(result, Some(value));
}

#[test]
fn hello_gives_two_words_in_order() {
    let env = quiet_env();
    let contract_id = env.register_contract(None, Dispatch);
    let client = Client::new(&env, &contract_id);

    let words = client.hello(&Symbol::new(&env, "World"));
    assert_eq!(words.len(), 2);
    assert_eq!(words.get(0).unwrap().to_string(), "Hello");
    assert_eq!(words.get(1).unwrap().to_string(), "World");
}

#[test]
fn hello_keeps_a_long_symbol() {
    let env = quiet_env();
    let contract_id = env.register_contract(None, Dispatch);
    let client = Client::new(&env, &contract_id);

    let name = "a_name_of_thirty_two_characters_";
    assert_eq!(name.len(), 32);
    let words = client.hello(&Symbol::new(&env, name));
    assert_eq!(words.len(), 2);
    assert_eq!(words.get(0).unwrap().to_string(), "Hello");
    assert_eq!(words.get(1).unwrap().to_string(), name);
}

#[test]
fn hello_keeps_the_empty_symbol() {
    let env = quiet_env();
    let contract_id = env.register_contract(None, Dispatch);
    let client = Client::new(&env, &contract_id);

    let words = client.hello(&Symbol::new(&env, ""));
    assert_eq!(words, Vec::from_array(&env, [Symbol::new(&env, "Hello"), Symbol::new(&env, "")]));
}

#[test]
fn hello_greets_itself() {
    let env = quiet_env();
    let contract_id = env.register_contract(None, Dispatch);
    let client = Client::new(&env, &contract_id);

    let words = client.hello(&Symbol::new(&env, "Hello"));
    assert_eq!(
        words,
        Vec::from_array(&env, [Symbol::new(&env, "Hello"), Symbol::new(&env, "Hello")])
    );
}

#[test]
fn get_without_store_is_absent() {
    let env = quiet_env();
    let contract_id = env.register_contract(None, Dispatch);
    let client = Client::new(&env, &contract_id);

    let addr2 = Address::generate(&env);
    assert_eq!(client.get(&addr2), None);
}

#[test]
fn get_of_another_address_is_absent() {
    let env = quiet_env();
    let contract_id = env.register_contract(None, Dispatch);
    let client = Client::new(&env, &contract_id);

    let addr1 = Address::generate(&env);
    let addr2 = Address::generate(&env);
    client.store(&addr1, &42);
    assert_eq!(client.get(&addr1), Some(42));
    assert_eq!(client.get(&addr2), None);
}

#[test]
fn last_store_wins() {
    let env = quiet_env();
    let contract_id = env.register_contract(None, Dispatch);
    let client = Client::new(&env, &contract_id);

    let addr1 = Address::generate(&env);
    client.store(&addr1, &1);
    client.store(&addr1, &2);
    assert_eq!(client.get(&addr1), Some(2));
}

#[test]
fn store_leaves_other_addresses() {
    let env = quiet_env();
    let contract_id = env.register_contract(None, Dispatch);
    let client = Client::new(&env, &contract_id);

    let a = Address::generate(&env);
    let b = Address::generate(&env);
    let c = Address::generate(&env);
    client.store(&b, &7);
    client.store(&a, &1);
    assert_eq!(client.get(&b), Some(7));
    assert_eq!(client.get(&c), None);
    client.store(&a, &2);
    assert_eq!(client.get(&b), Some(7));
    assert_eq!(client.get(&c), None);
    assert_eq!(client.get(&a), Some(2));
}

#[test]
fn stored_zero_is_not_absence() {
    let env = quiet_env();
    let contract_id = env.register_contract(None, Dispatch);
    let client = Client::new(&env, &contract_id);

    let user = Address::generate(&env);
    assert_eq!(client.get(&user), None);
    client.store(&user, &0);
    assert_eq!(client.get(&user), Some(0));
}

#[test]
fn stores_the_largest_value() {
    let env = quiet_env();
    let contract_id = env.register_contract(None, Dispatch);
    let client = Client::new(&env, &contract_id);

    let user = Address::generate(&env);
    client.store(&user, &u32::MAX);
    assert_eq!(client.get(&user), Some(u32::MAX));
}

#[test]
fn get_is_repeatable() {
    let env = quiet_env();
    let contract_id = env.register_contract(None, Dispatch);
    let client = Client::new(&env, &contract_id);

    let user = Address::generate(&env);
    let other = Address::generate(&env);
    client.store(&user, &5);
    assert_eq!(client.get(&user), Some(5));
    assert_eq!(client.get(&user), Some(5));
    assert_eq!(client.get(&other), None);
    assert_eq!(client.get(&other), None);
}

#[test]
fn each_contract_has_its_own_values() {
    let env = quiet_env();
    let first = Client::new(&env, &env.register_contract(None, Dispatch));
    let second = Client::new(&env, &env.register_contract(None, Dispatch));

    let user = Address::generate(&env);
    first.store(&user, &11);
    assert_eq!(first.get(&user), Some(11));
    assert_eq!(second.get(&user), None);
    second.store(&user, &22);
    assert_eq!(first.get(&user), Some(11));
    assert_eq!(second.get(&user), Some(22));
}

#[test]
fn an_account_address_is_a_key_too() {
    let env = quiet_env();
    let contract_id = env.register_contract(None, Dispatch);
    let client = Client::new(&env, &contract_id);

    let strkey = "GA7QYNF7SOWQ3GLR2BGMZEHXAVIRZA4KVWLTJJFC7MGXUA74P7UJVSGZ";
    let account = Address::from_string(&soroban_sdk::String::from_str(&env, strkey));
    let contract = Address::generate(&env);
    client.store(&account, &3);
    client.store(&contract, &4);
    assert_eq!(client.get(&account), Some(3));
    assert_eq!(client.get(&contract), Some(4));
}
