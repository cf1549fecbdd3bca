use crate::context::ContractVersion;
use crate::context::Env;
use crate::context::MessageInfo;
use crate::custom_vesting::error::VestingError;
use crate::custom_vesting::history::History;
use crate::custom_vesting::model::lemma_sums_grow;
use crate::custom_vesting::model::lemma_sums_of_keys;
use crate::custom_vesting::model::sums_of;
use crate::custom_vesting::model::total_of;
use crate::custom_vesting::model::Outcome;
use crate::custom_vesting::model::StoreView;
use crate::custom_vesting::msg::ExecuteMsg;
use crate::custom_vesting::msg::InfoResponse;
use crate::custom_vesting::msg::InstantiateMsg;
use crate::custom_vesting::msg::MigrateMsg;
use crate::custom_vesting::msg::OwnerAddressResponse;
use crate::custom_vesting::msg::QueryMsg;
use crate::custom_vesting::msg::QueryResponse;
use crate::custom_vesting::msg::TokenAddressResponse;
use crate::custom_vesting::msg::VestingAccountResponse;
use crate::custom_vesting::msg::VestingTotalResponse;
use crate::custom_vesting::state::get_vesting_data_from_account;
use crate::custom_vesting::state::Account;
use crate::custom_vesting::state::TotalVestingInfo;
use crate::custom_vesting::state::VestingData;
use crate::custom_vesting::state::VestingTerms;
use crate::custom_vesting::ledger::account_has;
use crate::custom_vesting::ledger::account_keys;
use crate::custom_vesting::ledger::account_may_load;
use crate::custom_vesting::ledger::account_remove;
use crate::custom_vesting::ledger::account_save;
use crate::custom_vesting::store::addresses_of;
use crate::custom_vesting::ledger::data_at_height;
use crate::custom_vesting::ledger::data_save;
use crate::custom_vesting::ledger::ledger_in;
use crate::custom_vesting::ledger::lemma_long_address_has_no_history;
use crate::custom_vesting::ledger::lemma_ledger_kept;
use crate::custom_vesting::ledger::new_ledger;
use crate::custom_vesting::ledger::short_addresses;
use crate::custom_vesting::ledger::total_at_height;
use crate::custom_vesting::ledger::total_save;
use crate::custom_vesting::ledger::Ledger;
use crate::response::AttributeValue;
use crate::response::Message;
use crate::response::Response;
use crate::storage::decodes;
use crate::storage::entries_kept;
use crate::storage::text_entry;
use crate::storage::text_may_load;
use crate::storage::text_save;
use crate::storage::version_may_load;
use crate::storage::version_row;
use crate::storage::version_save;
use crate::storage::MAX_ADDRESS_LENGTH;
use crate::text::copy_of;
use crate::text::named_or_copy;
use crate::text::text_of;
use cosmwasm_std::MemoryStorage;
use vstd::prelude::*;

verus! {

/// The name under which the contract records its version.
pub const CONTRACT_NAME: &'static str = "crates.io:klmd-custom-vesting";

/// The version that the contract records.
pub const CONTRACT_VERSION: &'static str = "0.1.0";

/// The name and the version that this code records when it sets a contract
/// up or migrates it.
pub open spec fn code_version() -> (Seq<char>, Seq<char>) {
    ("crates.io:klmd-custom-vesting"@, "0.1.0"@)
}

/// Everything the contract remembers between calls, in the storage that
/// holds it: its version, its owner and token once set up, and its ledger.
pub struct Store {
    storage: MemoryStorage,
}

/// What a contract remembers whose storage is `storage`.
pub open spec fn state_in(storage: MemoryStorage) -> StoreView {
    StoreView {
        version: version_row(storage),
        owner_address: text_entry(storage, "owner_address"@),
        token_address: text_entry(storage, "token_address"@),
        ledger: ledger_in(storage),
    }
}

impl View for Store {
    type V = StoreView;

    closed spec fn view(&self) -> StoreView {
        state_in(self.storage)
    }
}

/// Whether a call that should end as `outcome` did: the contract remembers
/// what it should, and the caller was told what it should be told.
pub open spec fn ends_as(outcome: Outcome, state: StoreView, result: Result<Response, VestingError>)
    -> bool {
    &&& state == outcome.state
    &&& match outcome.result {
        Ok(response) => result is Ok && result->Ok_0@ == response,
        Err(error) => result is Err && result->Err_0 == error,
    }
}

impl Store {
    /// Every entry that the storage holds for the contract decodes, and
    /// every address that it holds anything under fits a storage key.
    #[verifier::type_invariant]
    spec fn intact(&self) -> bool {
        decodes(self.storage) && short_addresses(self.storage)
    }

    /// A contract that is not set up yet and holds nothing.
    pub fn new() -> (deps: Store)
        ensures
            deps@ == StoreView::empty(),
    {
        Store { storage: new_ledger() }
    }

    /// The contract whose storage is `storage`. The storage must be one that
    /// only this contract wrote to, as the chain keeps it between calls.
    pub fn from_storage(storage: MemoryStorage) -> (deps: Store)
        requires
            decodes(storage),
            short_addresses(storage),
        ensures
            deps@ == state_in(storage),
    {
        Store { storage }
    }

    /// The storage of the contract, for the chain to keep until the next
    /// call.
    pub fn into_storage(self) -> (storage: MemoryStorage)
        ensures
            decodes(storage),
            short_addresses(storage),
            state_in(storage) == self@,
    {
        proof {
            use_type_invariant(&self);
        }
        self.storage
    }

    /// Who owns the contract, once it is set up.
    fn owner(&self) -> (found: Option<String>)
        ensures
            text_of(found) == self@.owner_address,
    {
        proof {
            use_type_invariant(self);
        }
        text_may_load(&self.storage, "owner_address")
    }

    /// Which token the contract pays out, once it is set up.
    fn token(&self) -> (found: Option<String>)
        ensures
            text_of(found) == self@.token_address,
    {
        proof {
            use_type_invariant(self);
        }
        text_may_load(&self.storage, "token_address")
    }

    /// Makes `address` the owner; all else stays as it is.
    fn set_owner(&mut self, address: &String)
        ensures
            final(self)@ == (StoreView { owner_address: Some(address@), ..old(self)@ }),
    {
        proof {
            use_type_invariant(&*self);
            lemma_names_differ();
        }
        text_save(&mut self.storage, "owner_address", address);
        proof {
            lemma_ledger_kept(old(self).storage, self.storage);
        }
    }

    /// Makes `address` the token; all else stays as it is.
    fn set_token(&mut self, address: &String)
        ensures
            final(self)@ == (StoreView { token_address: Some(address@), ..old(self)@ }),
    {
        proof {
            use_type_invariant(&*self);
            lemma_names_differ();
        }
        text_save(&mut self.storage, "token_address", address);
        proof {
            lemma_ledger_kept(old(self).storage, self.storage);
        }
    }
}

/// The owner and the token are stored under different names.
proof fn lemma_names_differ()
    ensures
        "owner_address"@ != "token_address"@,
{
    reveal_strlit("owner_address");
    reveal_strlit("token_address");
    assert("owner_address"@[0] == 'o');
    assert("token_address"@[0] == 't');
}

/// Sets the contract up. Always succeeds.
pub fn instantiate(deps: &mut Store, env: Env, info: MessageInfo, msg: InstantiateMsg) -> (result:
    Result<Response, VestingError>)
    ensures
        ends_as(
            old(deps)@.instantiate(
                code_version(),
                env.block,
                info.sender@,
                text_of(msg.owner_address),
                msg.token_address@,
            ),
            final(deps)@,
            result,
        ),
{
    set_contract_version(deps, CONTRACT_NAME, CONTRACT_VERSION);
    proof {
        use_type_invariant(&*deps);
    }
    let owner_address = named_or_copy(msg.owner_address, &info.sender);
    deps.set_owner(&owner_address);
    let token_address = msg.token_address;
    deps.set_token(&token_address);
    proof {
        use_type_invariant(&*deps);
    }
    let vesting_info = TotalVestingInfo {
        prevesting_amount: 0,
        prevested_amount: 0,
        vesting_amount: 0,
        vested_amount: 0,
        claimed_amount: 0,
    };
    total_save(&mut deps.storage, &vesting_info, env.block.height);
    Ok(
        Response::new().add_attribute("owner_address", AttributeValue::Text(owner_address))
            .add_attribute("token_address", AttributeValue::Text(token_address)),
    )
}

/// `sum + amount`, or nothing where that does not fit in 128 bits.
fn add_amount(sum: u128, amount: u128) -> (r: Option<u128>)
    ensures
        r == (if sum + amount <= u128::MAX {
            Some((sum + amount) as u128)
        } else {
            None
        }),
{
    if sum > u128::MAX - amount {
        None
    } else {
        Some(sum + amount)
    }
}

/// Adds up the figures of all the projections given. Fails with `Overflow`
/// exactly when one of the five sums does not fit in 128 bits.
pub fn compute_total_vesting_info(account_vesting_data: Vec<VestingData>) -> (result: Result<
    TotalVestingInfo,
    VestingError,
>)
    ensures
        result == total_of(account_vesting_data@),
{
    total_vesting_info_of(&account_vesting_data)
}

/// The aggregate of the projections, which stay with the caller.
fn total_vesting_info_of(account_vesting_data: &Vec<VestingData>) -> (result: Result<
    TotalVestingInfo,
    VestingError,
>)
    ensures
        result == total_of(account_vesting_data@),
{
    let mut total = TotalVestingInfo {
        prevesting_amount: 0,
        prevested_amount: 0,
        vesting_amount: 0,
        vested_amount: 0,
        claimed_amount: 0,
    };
    let mut i: usize = 0;
    while i < account_vesting_data.len()
        invariant
            i <= account_vesting_data.len(),
            sums_of(account_vesting_data@.take(i as int)).fits(),
            total == sums_of(account_vesting_data@.take(i as int)).total(),
        decreases account_vesting_data.len() - i,
    {
        let account_data = &account_vesting_data[i];
        proof {
            let upto = account_vesting_data@.take(i + 1);
            assert(upto.drop_last() =~= account_vesting_data@.take(i as int));
            lemma_sums_grow(account_vesting_data@, i + 1);
        }
        let sums = (
            add_amount(total.prevesting_amount, account_data.prevesting_amount),
            add_amount(total.prevested_amount, account_data.prevested_amount),
            add_amount(total.vesting_amount, account_data.vesting_amount),
            add_amount(total.vested_amount, account_data.vested_amount),
            add_amount(total.claimed_amount, account_data.claimed_amount),
        );
        match sums {
            (
                Some(prevesting_amount),
                Some(prevested_amount),
                Some(vesting_amount),
                Some(vested_amount),
                Some(claimed_amount),
            ) => {
                total = TotalVestingInfo {
                    prevesting_amount,
                    prevested_amount,
                    vesting_amount,
                    vested_amount,
                    claimed_amount,
                };
            },
            _ => {
                return Err(VestingError::Overflow);
            },
        }
        i += 1;
    }
    proof {
        assert(account_vesting_data@.take(i as int) =~= account_vesting_data@);
    }
    Ok(total)
}

/// The versioned projections while a snapshot is being written: the first
/// `count` of the addresses in `keys` have theirs recorded already.
spec fn recorded_upto(ledger: Ledger, keys: Seq<Seq<char>>, count: int, time: u64, height: u64)
    -> Map<Seq<char>, History<VestingData>> {
    Map::total(
        |address: Seq<char>|
            if keys.take(count).contains(address) {
                ledger.data_of(address).record(ledger.accounts[address].projection(time), height)
            } else {
                ledger.data[address]
            },
    )
}

/// Projects every live account at the time of the block, in the order of
/// `keys`. Fails with `Underflow` exactly when one of them has claimed more
/// than it has vested.
fn project_accounts(storage: &MemoryStorage, keys: &Vec<String>, env: &Env) -> (result: Result<
    Vec<VestingData>,
    VestingError,
>)
    requires
        decodes(*storage),
        addresses_of(keys@).to_set() == ledger_in(*storage).accounts.dom(),
    ensures
        ledger_in(*storage).underflows(env.block.time) ==> result == Err::<
            Vec<VestingData>,
            VestingError,
        >(VestingError::Underflow),
        !ledger_in(*storage).underflows(env.block.time) ==> result is Ok && result->Ok_0@.len()
            == keys@.len() && forall|i: int|
            0 <= i < keys@.len() ==> result->Ok_0@[i] == ledger_in(
                *storage,
            ).accounts[#[trigger] keys@[i]@].projection(env.block.time),
{
    let ghost ledger = ledger_in(*storage);
    let ghost time = env.block.time;
    let mut data: Vec<VestingData> = Vec::new();
    let mut i: usize = 0;
    while i < keys.len()
        invariant
            i <= keys.len(),
            data.len() == i,
            decodes(*storage),
            ledger_in(*storage) == ledger,
            time == env.block.time,
            addresses_of(keys@).to_set() == ledger.accounts.dom(),
            forall|j: int|
                0 <= j < i ==> data@[j] == ledger.accounts[#[trigger] keys@[j]@].projection(time)
                    && ledger.accounts[keys@[j]@].projected(time) is Ok,
        decreases keys.len() - i,
    {
        let address = &keys[i];
        proof {
            assert(addresses_of(keys@)[i as int] == address@);
        }
        let terms = match account_may_load(storage, address.as_str()) {
            Some(terms) => terms,
            None => vstd::pervasive::unreached(),
        };
        let account = Account::from_terms(copy_of(address), terms);
        match get_vesting_data_from_account(account, &env.block) {
            Ok(projection) => {
                data.push(projection);
            },
            Err(error) => {
                return Err(error);
            },
        }
        i += 1;
    }
    Ok(data)
}

/// Tells, without writing anything, whether a snapshot would succeed in the
/// block of `env` once `address` has the account `terms` (none where there
/// are none), and with which error it would fail where not.
fn check_snapshot(
    storage: &MemoryStorage,
    env: &Env,
    address: &String,
    terms: Option<VestingTerms>,
) -> (result: Result<(), VestingError>)
    requires
        decodes(*storage),
    ensures
        match ledger_in(*storage).with_account(address@, terms).snapshot(env.block) {
            Ok(_) => result is Ok,
            Err(error) => result == Err::<(), VestingError>(error),
        },
{
    let ghost ledger = ledger_in(*storage).with_account(address@, terms);
    let ghost time = env.block.time;
    let keys = account_keys(storage);
    let ghost stored = addresses_of(keys@);
    let mut data: Vec<VestingData> = Vec::new();
    let ghost mut counted: Seq<Seq<char>> = Seq::empty();
    let mut seen = false;
    let mut i: usize = 0;
    while i < keys.len()
        invariant
            i <= keys.len(),
            decodes(*storage),
            ledger == ledger_in(*storage).with_account(address@, terms),
            time == env.block.time,
            stored == addresses_of(keys@),
            stored.no_duplicates(),
            stored.to_set() == ledger_in(*storage).accounts.dom(),
            seen <==> stored.take(i as int).contains(address@),
            counted.no_duplicates(),
            counted.len() == data.len(),
            forall|a: Seq<char>|
                counted.contains(a) <==> (stored.take(i as int).contains(a)
                    && ledger.accounts.contains_key(a)),
            forall|j: int|
                0 <= j < counted.len() ==> data@[j] == ledger.accounts[#[trigger] counted[j]]
                    .projection(time) && ledger.accounts[counted[j]].projected(time) is Ok,
        decreases keys.len() - i,
    {
        let key = &keys[i];
        proof {
            assert(stored[i as int] == key@);
            assert(stored.to_set().contains(key@));
        }
        let ghost prev = stored.take(i as int);
        let ghost next = stored.take(i + 1);
        proof {
            assert(!prev.contains(key@)) by {
                if prev.contains(key@) {
                    let j = choose|j: int| 0 <= j < prev.len() && prev[j] == key@;
                    assert(stored[j] == stored[i as int]);
                }
            }
            assert forall|other: Seq<char>|
                next.contains(other) <==> (prev.contains(other) || other == key@) by {
                if other == key@ {
                    assert(next[i as int] == other);
                }
                if prev.contains(other) {
                    let j = choose|j: int| 0 <= j < prev.len() && prev[j] == other;
                    assert(next[j] == other);
                }
                if next.contains(other) && other != key@ {
                    let j = choose|j: int| 0 <= j < next.len() && next[j] == other;
                    assert(prev[j] == other);
                }
            }
        }
        let changed = *key == *address;
        let kept = if changed {
            terms
        } else {
            account_may_load(storage, key.as_str())
        };
        match kept {
            Some(kept) => {
                let account = Account::from_terms(copy_of(key), kept);
                match get_vesting_data_from_account(account, &env.block) {
                    Ok(projection) => {
                        data.push(projection);
                        proof {
                            let before = counted;
                            counted = counted.push(key@);
                            assert(!before.contains(key@));
                            assert(counted.no_duplicates()) by {
                                assert forall|x: int, y: int|
                                    0 <= x < counted.len() && 0 <= y < counted.len() && x != y implies counted[x]
                                    != counted[y] by {
                                    if x < before.len() && y < before.len() {
                                        assert(before[x] != before[y]);
                                    } else if x < before.len() {
                                        assert(before.contains(before[x]));
                                    } else if y < before.len() {
                                        assert(before.contains(before[y]));
                                    }
                                }
                            }
                            assert forall|a: Seq<char>|
                                counted.contains(a) <==> (before.contains(a) || a == key@) by {
                                if a == key@ {
                                    assert(counted[before.len() as int] == a);
                                }
                                if before.contains(a) {
                                    let j = choose|j: int| 0 <= j < before.len() && before[j] == a;
                                    assert(counted[j] == a);
                                }
                            }
                            assert forall|j: int| 0 <= j < counted.len() implies data@[j]
                                == ledger.accounts[#[trigger] counted[j]].projection(time)
                                && ledger.accounts[counted[j]].projected(time) is Ok by {
                                if j < before.len() {
                                    assert(counted[j] == before[j]);
                                }
                            }
                        }
                    },
                    Err(error) => {
                        proof {
                            assert(ledger.accounts.contains_key(key@));
                            assert(ledger.accounts[key@].projected(time) is Err);
                        }
                        return Err(error);
                    },
                }
            },
            None => {},
        }
        if changed {
            seen = true;
        }
        i += 1;
    }
    proof {
        assert(stored.take(keys@.len() as int) =~= stored);
    }
    if !seen {
        match terms {
            Some(added) => {
                let account = Account::from_terms(copy_of(address), added);
                match get_vesting_data_from_account(account, &env.block) {
                    Ok(projection) => {
                        data.push(projection);
                        proof {
                            let before = counted;
                            counted = counted.push(address@);
                            assert(!before.contains(address@));
                            assert(counted.no_duplicates()) by {
                                assert forall|x: int, y: int|
                                    0 <= x < counted.len() && 0 <= y < counted.len() && x != y implies counted[x]
                                    != counted[y] by {
                                    if x < before.len() && y < before.len() {
                                        assert(before[x] != before[y]);
                                    } else if x < before.len() {
                                        assert(before.contains(before[x]));
                                    } else if y < before.len() {
                                        assert(before.contains(before[y]));
                                    }
                                }
                            }
                            assert forall|a: Seq<char>|
                                counted.contains(a) <==> (before.contains(a) || a == address@) by {
                                if a == address@ {
                                    assert(counted[before.len() as int] == a);
                                }
                                if before.contains(a) {
                                    let j = choose|j: int| 0 <= j < before.len() && before[j] == a;
                                    assert(counted[j] == a);
                                }
                            }
                            assert forall|j: int| 0 <= j < counted.len() implies data@[j]
                                == ledger.accounts[#[trigger] counted[j]].projection(time)
                                && ledger.accounts[counted[j]].projected(time) is Ok by {
                                if j < before.len() {
                                    assert(counted[j] == before[j]);
                                }
                            }
                        }
                    },
                    Err(error) => {
                        proof {
                            assert(ledger.accounts.contains_key(address@));
                            assert(ledger.accounts[address@].projected(time) is Err);
                        }
                        return Err(error);
                    },
                }
            },
            None => {},
        }
    }
    proof {
        assert(counted.to_set() =~= ledger.accounts.dom()) by {
            assert forall|a: Seq<char>|
                counted.to_set().contains(a) <==> ledger.accounts.dom().contains(a) by {
                if ledger.accounts.contains_key(a) && a != address@ {
                    assert(stored.to_set().contains(a));
                }
            }
        }
        assert(!ledger.underflows(time)) by {
            if ledger.underflows(time) {
                let a = choose|a: Seq<char>|
                    ledger.accounts.contains_key(a) && #[trigger] ledger.accounts[a].projected(
                        time,
                    ) is Err;
                assert(counted.to_set().contains(a));
                let j = choose|j: int| 0 <= j < counted.len() && counted[j] == a;
                assert(ledger.accounts[counted[j]].projected(time) is Ok);
            }
        }
    }
    if env.block.height == 0 {
        return Err(VestingError::Underflow);
    }
    proof {
        lemma_sums_of_keys(ledger.accounts, time, counted, data@);
    }
    match total_vesting_info_of(&data) {
        Ok(_) => Ok(()),
        Err(error) => Err(error),
    }
}

/// Takes a snapshot of the ledger while the block of `env` is processed.
fn take_snapshot(deps: &mut Store, env: &Env) -> (result: Result<(), VestingError>)
    ensures
        match old(deps)@.ledger.snapshot(env.block) {
            Ok(ledger) => result is Ok && final(deps)@ == old(deps)@.with_ledger(ledger),
            Err(error) => result is Err && result->Err_0 == error && final(deps)@ == old(deps)@,
        },
{
    proof {
        use_type_invariant(&*deps);
    }
    let ghost ledger = ledger_in(deps.storage);
    let ghost time = env.block.time;
    let keys = account_keys(&deps.storage);
    let ghost addresses = addresses_of(keys@);
    let data = match project_accounts(&deps.storage, &keys, env) {
        Ok(data) => data,
        Err(error) => {
            return Err(error);
        },
    };
    if env.block.height == 0 {
        return Err(VestingError::Underflow);
    }
    let height: u64 = env.block.height - 1;
    proof {
        lemma_sums_of_keys(ledger.accounts, time, addresses, data@);
    }
    let total = match total_vesting_info_of(&data) {
        Ok(total) => total,
        Err(error) => {
            return Err(error);
        },
    };
    let mut i: usize = 0;
    proof {
        assert(recorded_upto(ledger, addresses, 0, time, height) =~= ledger.data);
    }
    while i < keys.len()
        invariant
            i <= keys.len(),
            keys@.len() == data@.len(),
            addresses == addresses_of(keys@),
            addresses.no_duplicates(),
            forall|j: int|
                0 <= j < keys@.len() ==> data@[j] == ledger.accounts[#[trigger] keys@[j]@].projection(
                    time,
                ),
            decodes(deps.storage),
            short_addresses(deps.storage),
            forall|j: int| 0 <= j < keys@.len() ==> (#[trigger] keys@[j])@.len() <= MAX_ADDRESS_LENGTH,
            ledger_in(deps.storage) == (Ledger {
                data: recorded_upto(ledger, addresses, i as int, time, height),
                ..ledger
            }),
            entries_kept(old(deps).storage, deps.storage),
        decreases keys.len() - i,
    {
        let ghost before = recorded_upto(ledger, addresses, i as int, time, height);
        let ghost address = keys@[i as int]@;
        data_save(&mut deps.storage, keys[i].as_str(), &data[i], height);
        proof {
            let prev = addresses.take(i as int);
            let next = addresses.take(i + 1);
            assert(!prev.contains(address)) by {
                if prev.contains(address) {
                    let j = choose|j: int| 0 <= j < prev.len() && prev[j] == address;
                    assert(addresses[j] == addresses[i as int]);
                }
            }
            assert forall|other: Seq<char>|
                next.contains(other) <==> (prev.contains(other) || other == address) by {
                if other == address {
                    assert(next[i as int] == other);
                }
            }
            let current = Ledger { data: before, ..ledger };
            assert(before.insert(address, current.data_of(address).record(data@[i as int], height))
                =~= recorded_upto(ledger, addresses, i + 1, time, height));
        }
        i += 1;
    }
    total_save(&mut deps.storage, &total, height);
    proof {
        assert(addresses.take(keys@.len() as int) =~= addresses);
        assert(recorded_upto(ledger, addresses, keys@.len() as int, time, height)
            =~= ledger.snapshot_data(time, height));
    }
    Ok(())
}

/// Records the projection of every live account and their aggregate, one
/// below the height of the block that is being processed.
pub fn snapshot(deps: &mut Store, env: Env, info: MessageInfo) -> (result: Result<
    Response,
    VestingError,
>)
    ensures
        ends_as(old(deps)@.snapshot(env.block), final(deps)@, result),
        result is Err ==> final(deps)@ == old(deps)@,
{
    match take_snapshot(deps, &env) {
        Ok(()) => {},
        Err(error) => {
            return Err(error);
        },
    }
    Ok(
        Response::new().add_attribute("action", AttributeValue::Text(String::from_str("snapshot")))
            .add_attribute("height", AttributeValue::Number(env.block.height)),
    )
}

/// Lets the call pass only where `sender` is the owner.
pub fn only_owner(deps: &Store, sender: &String) -> (result: Result<(), VestingError>)
    ensures
        result == deps@.only_owner(sender@),
{
    match deps.owner() {
        None => Err(VestingError::NotInitialized),
        Some(owner) => {
            if owner != *sender {
                return Err(VestingError::Unauthorized);
            }
            Ok(())
        },
    }
}

/// Hands the contract to another owner.
pub fn update_owner_address(deps: &mut Store, env: Env, info: MessageInfo, owner_address: String)
    -> (result: Result<Response, VestingError>)
    ensures
        ends_as(
            old(deps)@.update_owner_address(info.sender@, owner_address@),
            final(deps)@,
            result,
        ),
        result is Err ==> final(deps)@ == old(deps)@,
{
    proof {
        use_type_invariant(&*deps);
    }
    match only_owner(deps, &info.sender) {
        Ok(()) => {},
        Err(error) => {
            return Err(error);
        },
    }
    deps.set_owner(&owner_address);
    Ok(
        Response::new().add_attribute(
            "action",
            AttributeValue::Text(String::from_str("update_owner_address")),
        ).add_attribute("owner_address", AttributeValue::Text(owner_address)),
    )
}

/// Registers an account for `address` and takes a snapshot. Whether the
/// snapshot will succeed is found out before anything is written: a call
/// that fails changes nothing.
pub fn register_vesting_account(
    deps: &mut Store,
    env: Env,
    info: MessageInfo,
    address: String,
    start_time: u64,
    end_time: u64,
    vesting_amount: u128,
    prevesting_amount: u128,
) -> (result: Result<Response, VestingError>)
    ensures
        ends_as(
            old(deps)@.register(
                env.block,
                address@,
                start_time,
                end_time,
                vesting_amount,
                prevesting_amount,
            ),
            final(deps)@,
            result,
        ),
        result is Err ==> final(deps)@ == old(deps)@,
{
    proof {
        use_type_invariant(&*deps);
    }
    if address.as_str().unicode_len() > MAX_ADDRESS_LENGTH {
        return Err(VestingError::AddressTooLong);
    }
    if account_has(&deps.storage, address.as_str()) {
        return Err(VestingError::AlreadyExists);
    }
    let account = Account {
        address: copy_of(&address),
        prevesting_amount,
        vesting_amount,
        registration_time: env.block.time,
        start_time,
        end_time,
        claimed_amount: 0,
    };
    match account.validate(&env.block) {
        Ok(()) => {},
        Err(error) => {
            return Err(error);
        },
    }
    match check_snapshot(&deps.storage, &env, &address, Some(account.to_terms())) {
        Ok(()) => {},
        Err(error) => {
            return Err(error);
        },
    }
    account_save(&mut deps.storage, address.as_str(), &account.to_terms());
    match take_snapshot(deps, &env) {
        Ok(()) => {},
        Err(_) => vstd::pervasive::unreached(),
    }
    Ok(
        Response::new().add_attribute(
            "action",
            AttributeValue::Text(String::from_str("register_vesting_account")),
        ).add_attribute("address", AttributeValue::Text(address)).add_attribute(
            "vesting_amount",
            AttributeValue::Amount(vesting_amount),
        ),
    )
}

/// Drops the account of `address`, takes a snapshot, and instructs the
/// transfers that settle it. Whether the snapshot will succeed is found out
/// before anything is written: a call that fails changes nothing.
pub fn deregister_vesting_account(
    deps: &mut Store,
    env: Env,
    info: MessageInfo,
    address: String,
    vested_token_recipient: Option<String>,
    left_vesting_token_recipient: Option<String>,
) -> (result: Result<Response, VestingError>)
    ensures
        ends_as(
            old(deps)@.deregister(
                env.block,
                info.sender@,
                address@,
                text_of(vested_token_recipient),
                text_of(left_vesting_token_recipient),
            ),
            final(deps)@,
            result,
        ),
        result is Err ==> final(deps)@ == old(deps)@,
{
    proof {
        use_type_invariant(&*deps);
    }
    match only_owner(deps, &info.sender) {
        Ok(()) => {},
        Err(error) => {
            return Err(error);
        },
    }
    let token_address = match deps.token() {
        Some(token_address) => token_address,
        None => {
            return Err(VestingError::NotInitialized);
        },
    };
    let mut response = Response::new();

    let terms = match account_may_load(&deps.storage, address.as_str()) {
        Some(terms) => terms,
        None => {
            return Err(VestingError::EntryNotFound);
        },
    };
    let account = Account::from_terms(copy_of(&address), terms);
    let vested_amount: u128 = match account.vested_amount(&env.block) {
        Ok(vested_amount) => vested_amount,
        Err(error) => {
            return Err(error);
        },
    };
    let claimed_amount: u128 = account.claimed_amount;
    if claimed_amount > vested_amount {
        return Err(VestingError::Underflow);
    }
    let claimable_amount: u128 = vested_amount - claimed_amount;

    match check_snapshot(&deps.storage, &env, &address, None) {
        Ok(()) => {},
        Err(error) => {
            return Err(error);
        },
    }
    account_remove(&mut deps.storage, address.as_str());
    match take_snapshot(deps, &env) {
        Ok(()) => {},
        Err(_) => vstd::pervasive::unreached(),
    }
    if claimable_amount != 0 {
        let recipient = named_or_copy(vested_token_recipient, &account.address);
        response = response.add_message(
            Message::Cw20Transfer {
                token_address: copy_of(&token_address),
                recipient,
                amount: claimable_amount,
            },
        );
    }
    proof {
        terms.lemma_vested_bounded(env.block.time);
    }
    let left_vesting_amount: u128 = account.vesting_amount - vested_amount;
    if left_vesting_amount != 0 {
        let recipient = named_or_copy(left_vesting_token_recipient, &info.sender);
        response = response.add_message(
            Message::Cw20Transfer {
                token_address: copy_of(&token_address),
                recipient,
                amount: left_vesting_amount,
            },
        );
    }
    let response = response.add_attribute(
        "action",
        AttributeValue::Text(String::from_str("deregister_vesting_account")),
    ).add_attribute("address", AttributeValue::Text(address)).add_attribute(
        "vesting_amount",
        AttributeValue::Amount(account.vesting_amount),
    ).add_attribute("claimable_amount", AttributeValue::Amount(claimable_amount)).add_attribute(
        "vested_amount",
        AttributeValue::Amount(vested_amount),
    ).add_attribute("left_vesting_amount", AttributeValue::Amount(left_vesting_amount));
    Ok(response)
}

/// Pays out to `recipient` (the sender where none is named) what it has
/// vested and not yet claimed, and takes a snapshot. Whether the snapshot
/// will succeed is found out before anything is written: a call that fails
/// changes nothing.
pub fn claim(deps: &mut Store, env: Env, info: MessageInfo, recipient: Option<String>) -> (result:
    Result<Response, VestingError>)
    ensures
        ends_as(
            old(deps)@.claim(env.block, info.sender@, text_of(recipient)),
            final(deps)@,
            result,
        ),
        result is Err ==> final(deps)@ == old(deps)@,
{
    proof {
        use_type_invariant(&*deps);
    }
    let recipient = named_or_copy(recipient, &info.sender);
    let token_address = match deps.token() {
        Some(token_address) => token_address,
        None => {
            return Err(VestingError::NotInitialized);
        },
    };
    let terms = match account_may_load(&deps.storage, recipient.as_str()) {
        Some(terms) => terms,
        None => {
            return Err(VestingError::EntryNotFound);
        },
    };
    let mut account = Account::from_terms(copy_of(&recipient), terms);
    let vested_amount: u128 = match account.vested_amount(&env.block) {
        Ok(vested_amount) => vested_amount,
        Err(error) => {
            return Err(error);
        },
    };
    let claimed_amount: u128 = account.claimed_amount;
    if claimed_amount > vested_amount {
        return Err(VestingError::Underflow);
    }
    let claimable_amount: u128 = vested_amount - claimed_amount;

    account.claimed_amount = vested_amount;
    let settled = if account.claimed_amount == account.vesting_amount {
        None
    } else {
        Some(account.to_terms())
    };
    match check_snapshot(&deps.storage, &env, &recipient, settled) {
        Ok(()) => {},
        Err(error) => {
            return Err(error);
        },
    }
    match settled {
        Some(terms) => account_save(&mut deps.storage, recipient.as_str(), &terms),
        None => account_remove(&mut deps.storage, recipient.as_str()),
    }
    match take_snapshot(deps, &env) {
        Ok(()) => {},
        Err(_) => vstd::pervasive::unreached(),
    }
    Ok(
        Response::new().add_message(
            Message::Cw20Transfer {
                token_address,
                recipient: copy_of(&recipient),
                amount: claimable_amount,
            },
        ).add_attribute("action", AttributeValue::Text(String::from_str("claim"))).add_attribute(
            "address",
            AttributeValue::Text(recipient),
        ).add_attribute("amount", AttributeValue::Amount(claimable_amount)),
    )
}

/// How a call with the message `msg` should end.
pub open spec fn executed(state: StoreView, env: Env, sender: Seq<char>, msg: ExecuteMsg)
    -> Outcome {
    match msg {
        ExecuteMsg::UpdateOwnerAddress { address } => state.update_owner_address(sender, address@),
        ExecuteMsg::DeregisterVestingAccount {
            address,
            vested_token_recipient,
            left_vesting_token_recipient,
        } => state.deregister(
            env.block,
            sender,
            address@,
            text_of(vested_token_recipient),
            text_of(left_vesting_token_recipient),
        ),
        ExecuteMsg::RegisterVestingAccount {
            address,
            start_time,
            end_time,
            vesting_amount,
            prevesting_amount,
        } => state.register(
            env.block,
            address@,
            start_time,
            end_time,
            vesting_amount,
            prevesting_amount,
        ),
        ExecuteMsg::Claim { recipient } => state.claim(env.block, sender, text_of(recipient)),
        ExecuteMsg::Snapshot {  } => state.snapshot(env.block),
        ExecuteMsg::ProposalHook {  } => state.snapshot(env.block),
    }
}

/// Handles a message that changes the contract.
pub fn execute(deps: &mut Store, env: Env, info: MessageInfo, msg: ExecuteMsg) -> (result: Result<
    Response,
    VestingError,
>)
    ensures
        ends_as(executed(old(deps)@, env, info.sender@, msg), final(deps)@, result),
        result is Err ==> final(deps)@ == old(deps)@,
{
    match msg {
        ExecuteMsg::UpdateOwnerAddress { address } => update_owner_address(deps, env, info, address),
        ExecuteMsg::DeregisterVestingAccount {
            address,
            vested_token_recipient,
            left_vesting_token_recipient,
        } => deregister_vesting_account(
            deps,
            env,
            info,
            address,
            vested_token_recipient,
            left_vesting_token_recipient,
        ),
        ExecuteMsg::RegisterVestingAccount {
            address,
            start_time,
            end_time,
            vesting_amount,
            prevesting_amount,
        } => register_vesting_account(
            deps,
            env,
            info,
            address,
            start_time,
            end_time,
            vesting_amount,
            prevesting_amount,
        ),
        ExecuteMsg::Claim { recipient } => claim(deps, env, info, recipient),
        ExecuteMsg::Snapshot {  } => snapshot(deps, env, info),
        ExecuteMsg::ProposalHook {  } => snapshot(deps, env, info),
    }
}

/// The height that a question is about: the one it names, or the block's.
pub open spec fn asked_height(env: Env, height: Option<u64>) -> u64 {
    match height {
        Some(height) => height,
        None => env.block.height,
    }
}

/// Who owns the contract. Fails with `NotInitialized` before it is set up.
pub fn query_owner_address(deps: &Store, env: Env) -> (result: Result<
    OwnerAddressResponse,
    VestingError,
>)
    ensures
        match deps@.owner_address {
            Some(owner) => result is Ok && result->Ok_0.owner_address@ == owner,
            None => result is Err && result->Err_0 == VestingError::NotInitialized,
        },
{
    match deps.owner() {
        Some(owner) => Ok(OwnerAddressResponse { owner_address: owner }),
        None => Err(VestingError::NotInitialized),
    }
}

/// Which token the contract pays out. Fails with `NotInitialized` before it
/// is set up.
pub fn query_token_address(deps: &Store, env: Env) -> (result: Result<
    TokenAddressResponse,
    VestingError,
>)
    ensures
        match deps@.token_address {
            Some(token) => result is Ok && result->Ok_0.token_address@ == token,
            None => result is Err && result->Err_0 == VestingError::NotInitialized,
        },
{
    match deps.token() {
        Some(token) => Ok(TokenAddressResponse { token_address: token }),
        None => Err(VestingError::NotInitialized),
    }
}

/// The aggregate as of `height` (the block's height where none is named), all
/// zero where none was recorded by then. Always succeeds.
pub fn query_vesting_total(deps: &Store, env: Env, height: Option<u64>) -> (result: Result<
    VestingTotalResponse,
    VestingError,
>)
    ensures
        result is Ok,
        result->Ok_0.info == deps@.vesting_total_at(asked_height(env, height)),
{
    proof {
        use_type_invariant(deps);
    }
    let input_height: u64 = match height {
        Some(height) => height,
        None => env.block.height,
    };
    let total_vesting_info = match total_at_height(&deps.storage, input_height) {
        Some(total) => total,
        None => TotalVestingInfo::default(),
    };
    Ok(VestingTotalResponse { info: total_vesting_info })
}

/// The projection of `address` as of `height` (the block's height where none
/// is named), all zero where none was recorded by then. Always succeeds.
pub fn query_vesting_account(deps: &Store, env: Env, address: String, height: Option<u64>) -> (result:
    Result<VestingAccountResponse, VestingError>)
    ensures
        result is Ok,
        result->Ok_0.address@ == address@,
        result->Ok_0.vestings == deps@.vesting_account_at(address@, asked_height(env, height)),
{
    proof {
        use_type_invariant(deps);
    }
    let input_height: u64 = match height {
        Some(height) => height,
        None => env.block.height,
    };
    if address.as_str().unicode_len() > MAX_ADDRESS_LENGTH {
        proof {
            lemma_long_address_has_no_history(deps.storage, address@);
        }
        return Ok(VestingAccountResponse { address, vestings: VestingData::default() });
    }
    let vesting_data = match data_at_height(&deps.storage, address.as_str(), input_height) {
        Some(data) => data,
        None => VestingData::default(),
    };
    Ok(VestingAccountResponse { address, vestings: vesting_data })
}

/// The name and version that the contract last recorded. Fails with
/// `NotInitialized` before it is set up.
pub fn query_info(deps: &Store) -> (result: Result<InfoResponse, VestingError>)
    ensures
        match deps@.version {
            Some(version) => result is Ok && result->Ok_0.info.contract@ == version.0
                && result->Ok_0.info.version@ == version.1,
            None => result is Err && result->Err_0 == VestingError::NotInitialized,
        },
{
    match get_contract_version(deps) {
        Ok(info) => Ok(InfoResponse { info }),
        Err(error) => Err(error),
    }
}

/// Whether `result` answers the question `msg` asked of `state`.
pub open spec fn answers(state: StoreView, env: Env, msg: QueryMsg, result: Result<
    QueryResponse,
    VestingError,
>) -> bool {
    match msg {
        QueryMsg::OwnerAddress {  } => match state.owner_address {
            Some(owner) => result matches Ok(QueryResponse::OwnerAddress(response))
                && response.owner_address@ == owner,
            None => result is Err && result->Err_0 == VestingError::NotInitialized,
        },
        QueryMsg::TokenAddress {  } => match state.token_address {
            Some(token) => result matches Ok(QueryResponse::TokenAddress(response))
                && response.token_address@ == token,
            None => result is Err && result->Err_0 == VestingError::NotInitialized,
        },
        QueryMsg::VestingAccount { address, height } => result matches Ok(
            QueryResponse::VestingAccount(response),
        ) && response.address@ == address@ && response.vestings == state.vesting_account_at(
            address@,
            asked_height(env, height),
        ),
        QueryMsg::VestingTotal { height } => result matches Ok(
            QueryResponse::VestingTotal(response),
        ) && response.info == state.vesting_total_at(asked_height(env, height)),
        QueryMsg::Info {  } => match state.version {
            Some(version) => result matches Ok(QueryResponse::Info(response))
                && response.info.contract@ == version.0 && response.info.version@ == version.1,
            None => result is Err && result->Err_0 == VestingError::NotInitialized,
        },
    }
}

/// Answers a question about the contract.
pub fn query(deps: &Store, env: Env, msg: QueryMsg) -> (result: Result<QueryResponse, VestingError>)
    ensures
        answers(deps@, env, msg, result),
{
    match msg {
        QueryMsg::OwnerAddress {  } => match query_owner_address(deps, env) {
            Ok(response) => Ok(QueryResponse::OwnerAddress(response)),
            Err(error) => Err(error),
        },
        QueryMsg::VestingAccount { address, height } => match query_vesting_account(
            deps,
            env,
            address,
            height,
        ) {
            Ok(response) => Ok(QueryResponse::VestingAccount(response)),
            Err(error) => Err(error),
        },
        QueryMsg::TokenAddress {  } => match query_token_address(deps, env) {
            Ok(response) => Ok(QueryResponse::TokenAddress(response)),
            Err(error) => Err(error),
        },
        QueryMsg::VestingTotal { height } => match query_vesting_total(deps, env, height) {
            Ok(response) => Ok(QueryResponse::VestingTotal(response)),
            Err(error) => Err(error),
        },
        QueryMsg::Info {  } => match query_info(deps) {
            Ok(response) => Ok(QueryResponse::Info(response)),
            Err(error) => Err(error),
        },
    }
}

/// Records `contract` and `version` as the name and version of the code
/// that runs the contract; everything else stays as it is.
pub fn set_contract_version(deps: &mut Store, contract: &str, version: &str)
    ensures
        final(deps)@ == (StoreView { version: Some((contract@, version@)), ..old(deps)@ }),
{
    proof {
        use_type_invariant(&*deps);
    }
    version_save(&mut deps.storage, contract, version);
    proof {
        lemma_ledger_kept(old(deps).storage, deps.storage);
    }
}

/// The name and version that the contract last recorded. Fails with
/// `NotInitialized` where it recorded none.
pub fn get_contract_version(deps: &Store) -> (result: Result<ContractVersion, VestingError>)
    ensures
        match deps@.version {
            Some(version) => result is Ok && result->Ok_0.contract@ == version.0
                && result->Ok_0.version@ == version.1,
            None => result is Err && result->Err_0 == VestingError::NotInitialized,
        },
{
    proof {
        use_type_invariant(deps);
    }
    match version_may_load(&deps.storage) {
        Some(version) => Ok(version),
        None => Err(VestingError::NotInitialized),
    }
}

/// Records the name and version of this code; the ledger, the owner and the
/// token stay as they are. Always succeeds, with an empty response.
pub fn migrate(deps: &mut Store, env: Env, msg: MigrateMsg) -> (result: Result<
    Response,
    VestingError,
>)
    ensures
        final(deps)@ == (StoreView { version: Some(code_version()), ..old(deps)@ }),
        result is Ok,
        result->Ok_0@ == crate::response::ResponseView::empty(),
{
    set_contract_version(deps, CONTRACT_NAME, CONTRACT_VERSION);
    Ok(Response::new())
}

} // verus!
