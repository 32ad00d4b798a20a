use vstd::prelude::*;
use vstd::std_specs::cmp::PartialEqSpecImpl;

verus! {

/// A 32-byte account address.
#[derive(Clone, Copy, Debug)]
pub struct Pubkey {
    pub bytes: [u8; 32],
}

impl View for Pubkey {
    type V = Seq<u8>;

    open spec fn view(&self) -> Seq<u8> {
        self.bytes@
    }
}

impl PartialEq for Pubkey {
    /// Compares byte by byte.
    fn eq(&self, other: &Pubkey) -> (r: bool) {
        let mut i: usize = 0;
        while i < 32
            invariant
                i <= 32,
                forall|j: int| 0 <= j < i ==> self.bytes[j] == other.bytes[j],
            decreases 32 - i,
        {
            if self.bytes[i] != other.bytes[i] {
                return false;
            }
            i += 1;
        }
        assert(self.bytes =~= other.bytes);
        true
    }
}

impl Eq for Pubkey {}

impl PartialEqSpecImpl for Pubkey {
    open spec fn obeys_eq_spec() -> bool {
        true
    }

    open spec fn eq_spec(&self, other: &Pubkey) -> bool {
        *self == *other
    }
}

impl Pubkey {
    /// The address with the given bytes.
    pub fn new_from_array(bytes: [u8; 32]) -> (key: Pubkey)
        ensures
            key.bytes == bytes,
    {
        Pubkey { bytes }
    }

    /// The bytes of the address.
    pub fn to_bytes(&self) -> (bytes: [u8; 32])
        ensures
            bytes == self.bytes,
    {
        self.bytes
    }

    /// The bytes of the address, in a vector.
    pub fn to_vec(&self) -> (bytes: Vec<u8>)
        ensures
            bytes@ == self@,
    {
        let mut bytes: Vec<u8> = Vec::new();
        let mut i: usize = 0;
        while i < 32
            invariant
                i <= 32,
                bytes@ == self@.subrange(0, i as int),
            decreases 32 - i,
        {
            bytes.push(self.bytes[i]);
            assert(bytes@ =~= self@.subrange(0, i + 1));
            i += 1;
        }
        assert(bytes@ =~= self@);
        bytes
    }

    /// The address whose bytes are `bytes`, for `bytes` of the right length.
    pub open spec fn from_view(bytes: Seq<u8>) -> Pubkey {
        choose|key: Pubkey| key@ == bytes
    }

    /// `from_view` gives back the address that a view was taken of.
    pub proof fn lemma_from_view(key: Pubkey)
        ensures
            Pubkey::from_view(key@) == key,
    {
        Pubkey::lemma_view_injective(Pubkey::from_view(key@), key);
    }

    /// Two addresses are the same address exactly when their bytes agree.
    pub proof fn lemma_view_injective(a: Pubkey, b: Pubkey)
        ensures
            a@ == b@ <==> a == b,
    {
        if a@ == b@ {
            assert(a.bytes =~= b.bytes);
        }
    }
}

/// The lifecycle of an order. `Pending` is the only state that can change.
#[derive(Clone, Copy, Debug, PartialEq, Eq, Structural)]
pub enum OrderStatus {
    Pending,
    Executed,
    Cancelled,
    Failed,
}

impl OrderStatus {
    /// Whether an order may move from `self` to `next`.
    pub open spec fn may_become(self, next: OrderStatus) -> bool {
        self == OrderStatus::Pending && next != OrderStatus::Pending
    }

    /// Whether an order in this state can no longer change.
    pub open spec fn is_terminal(self) -> bool {
        self != OrderStatus::Pending
    }
}

/// The test that an address is not `key`.
pub open spec fn other_than(key: Pubkey) -> spec_fn(Pubkey) -> bool {
    |held: Pubkey| held != key
}

/// The most relayers that the allow-list holds.
pub const MAX_RELAYERS: usize = 16;

/// The one global record: the submission counter, the administrator, the
/// pause switch and the relayers that may execute orders.
#[derive(Clone, Debug, PartialEq, Eq)]
pub struct FifoState {
    pub current_sequence: u64,
    pub admin: Pubkey,
    pub emergency_pause: bool,
    pub authorized_relayers: Vec<Pubkey>,
}

/// What a `FifoState` stands for: its fields, with the allow-list as a sequence.
pub struct FifoStateView {
    pub current_sequence: u64,
    pub admin: Pubkey,
    pub emergency_pause: bool,
    pub authorized_relayers: Seq<Pubkey>,
}

impl FifoStateView {
    /// The state right after initialization by `admin`.
    pub open spec fn initial(admin: Pubkey) -> FifoStateView {
        FifoStateView {
            current_sequence: 0,
            admin,
            emergency_pause: false,
            authorized_relayers: Seq::empty(),
        }
    }

    /// The allow-list is a set kept in order of admission, within its capacity.
    pub open spec fn wf(self) -> bool {
        &&& self.authorized_relayers.no_duplicates()
        &&& self.authorized_relayers.len() <= MAX_RELAYERS
    }

    /// Whether `key` is on the allow-list.
    pub open spec fn is_relayer(self, key: Pubkey) -> bool {
        self.authorized_relayers.contains(key)
    }

    /// The allow-list with `key` admitted last.
    pub open spec fn with_relayer(self, key: Pubkey) -> FifoStateView {
        FifoStateView { authorized_relayers: self.authorized_relayers.push(key), ..self }
    }

    /// The allow-list with every entry for `key` taken out, the others in
    /// their order.
    pub open spec fn without_relayer(self, key: Pubkey) -> FifoStateView {
        FifoStateView {
            authorized_relayers: self.authorized_relayers.filter(other_than(key)),
            ..self
        }
    }

    /// The state with the pause switch set to `paused`.
    pub open spec fn with_pause(self, paused: bool) -> FifoStateView {
        FifoStateView { emergency_pause: paused, ..self }
    }

    /// The state after one more sequence number was handed out.
    pub open spec fn advanced(self) -> FifoStateView
        recommends
            self.current_sequence < u64::MAX,
    {
        FifoStateView { current_sequence: (self.current_sequence + 1) as u64, ..self }
    }
}

impl View for FifoState {
    type V = FifoStateView;

    open spec fn view(&self) -> FifoStateView {
        FifoStateView {
            current_sequence: self.current_sequence,
            admin: self.admin,
            emergency_pause: self.emergency_pause,
            authorized_relayers: self.authorized_relayers@,
        }
    }
}

impl FifoState {
    /// Whether `key` is on the allow-list.
    pub fn is_relayer(&self, key: &Pubkey) -> (found: bool)
        ensures
            found == self@.is_relayer(*key),
    {
        let mut i: usize = 0;
        while i < self.authorized_relayers.len()
            invariant
                i <= self.authorized_relayers.len(),
                forall|j: int| 0 <= j < i ==> self.authorized_relayers@[j] != *key,
            decreases self.authorized_relayers.len() - i,
        {
            if self.authorized_relayers[i] == *key {
                return true;
            }
            i += 1;
        }
        false
    }
}

/// The record of a pool that was brought under this program's authority.
#[derive(Clone, Copy, Debug, PartialEq, Eq)]
pub struct CpSwapPoolRegistry {
    pub pool_id: Pubkey,
    pub token_0: Option<Pubkey>,
    pub token_1: Option<Pubkey>,
    pub continuum_authority: Pubkey,
    pub created_at: i64,
    pub is_active: bool,
}

impl CpSwapPoolRegistry {
    /// Whether `registry` is a registration of `pool_id` that takes orders.
    pub open spec fn serves(registry: Option<CpSwapPoolRegistry>, pool_id: Pubkey) -> bool {
        registry matches Some(found) && found.pool_id == pool_id && found.is_active
    }

    /// Tests whether `registry` is a registration of `pool_id` that takes orders.
    pub fn is_serving(registry: &Option<CpSwapPoolRegistry>, pool_id: &Pubkey) -> (serving: bool)
        ensures
            serving == CpSwapPoolRegistry::serves(*registry, *pool_id),
    {
        match registry {
            Some(found) => found.pool_id == *pool_id && found.is_active,
            None => false,
        }
    }
}

/// A submitted order. `(user, sequence)` names it.
#[derive(Clone, Copy, Debug, PartialEq, Eq)]
pub struct OrderState {
    pub sequence: u64,
    pub user: Pubkey,
    pub pool_id: Pubkey,
    pub amount_in: u64,
    pub min_amount_out: u64,
    pub is_base_input: bool,
    pub status: OrderStatus,
    pub submitted_at: i64,
    pub executed_at: Option<i64>,
}

impl OrderState {
    /// `self` with its lifecycle closed as `status` at time `now`.
    pub open spec fn finalized(self, status: OrderStatus, now: i64) -> OrderState {
        OrderState { status, executed_at: Some(now), ..self }
    }
}

/// The host's clock, read once per operation.
#[derive(Clone, Copy, Debug, PartialEq, Eq)]
pub struct Clock {
    pub unix_timestamp: i64,
}

/// A token account as the host shows it: where it lives, whose it is and
/// what it holds.
#[derive(Clone, Copy, Debug, PartialEq, Eq)]
pub struct TokenAccount {
    pub key: Pubkey,
    pub owner: Pubkey,
    pub amount: u64,
}

/// An account that a caller hands through to the AMM, with the rights the
/// caller declared for it.
#[derive(Clone, Copy, Debug, PartialEq, Eq)]
pub struct AccountInfo {
    pub key: Pubkey,
    pub is_signer: bool,
    pub is_writable: bool,
}

/// The notice that an order was submitted.
#[derive(Clone, Copy, Debug, PartialEq, Eq)]
pub struct OrderSubmitted {
    pub sequence: u64,
    pub user: Pubkey,
    pub pool_id: Pubkey,
    pub amount_in: u64,
    pub is_base_input: bool,
}

/// The notice that an order was executed, with the amount that the swap
/// paid out as it was measured.
#[derive(Clone, Copy, Debug, PartialEq, Eq)]
pub struct OrderExecuted {
    pub sequence: u64,
    pub user: Pubkey,
    pub amount_out: u64,
    pub executor: Pubkey,
}

/// The notice that an order was cancelled by its owner.
#[derive(Clone, Copy, Debug, PartialEq, Eq)]
pub struct OrderCancelled {
    pub sequence: u64,
    pub user: Pubkey,
}

/// The notice that a pool was registered under its derived authority.
#[derive(Clone, Copy, Debug, PartialEq, Eq)]
pub struct PoolRegistered {
    pub pool_id: Pubkey,
    pub continuum_authority: Pubkey,
}

} // verus!
