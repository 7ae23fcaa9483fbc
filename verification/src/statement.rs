use vstd::prelude::*;
use vstd::string::StrSliceExecFns;

use crate::error::{to_result, CassError};
use crate::value::{
    text_check, text_ok, value_ok, Inet, ListHandle, MapHandle, SetHandle, TupleHandle, TypedValue,
    UserTypeHandle, Uuid, ValueView,
};

verus! {

/// A statement's consistency level.
#[derive(Clone, Copy, Debug, PartialEq, Eq, Structural)]
pub enum Consistency {
    Any,
    One,
    Two,
    Three,
    Quorum,
    All,
    LocalQuorum,
    EachQuorum,
    Serial,
    LocalSerial,
    LocalOne,
}

/// An opaque retry-policy handle, produced and owned by another
/// collaborator; this layer stores a reference to it without inspecting it.
#[derive(Clone, Copy, Debug, PartialEq, Eq, Structural)]
pub struct RetryPolicy {
    pub handle: u64,
}

/// An opaque custom-payload handle, produced and owned by another
/// collaborator; this layer stores a reference to it without inspecting it.
#[derive(Clone, Copy, Debug, PartialEq, Eq, Structural)]
pub struct CustomPayload {
    pub handle: u64,
}

/// What this layer reads from a previous execution's result when a paged
/// query is continued: the opaque paging token the result carried.
pub struct CassResult {
    pub paging_token: String,
}

/// The paging size that means "paging disabled", the default.
pub const PAGING_DISABLED: i32 = -1;

/// How a parameter slot is addressed: by zero-based position, or by
/// column name. Name addressing reaches every slot sharing the name, and
/// is only available on statements derived from a prepared template.
#[derive(Debug, PartialEq)]
pub enum ParameterAddress {
    Position(u64),
    Name(String),
}

/// The mathematical state of a statement: its liveness, origin, per-slot
/// name metadata (empty for ad-hoc statements), the bound value of each
/// parameter slot, and every query-scoped option.
#[verifier::ext_equal]
pub ghost struct StmtView {
    /// Whether the backing resource has not yet been released.
    pub live: bool,
    /// Whether this statement was derived from a prepared template; only
    /// such statements carry parameter name metadata.
    pub from_prepared: bool,
    /// The originating query text; empty for prepared-derived statements.
    pub query: Seq<char>,
    /// Per-slot parameter names; empty for ad-hoc statements.
    pub names: Seq<Seq<char>>,
    /// The parameter slots; a slot is `None` until a value is bound to it.
    pub slots: Seq<Option<ValueView>>,
    pub consistency: Consistency,
    pub serial_consistency: Option<Consistency>,
    pub paging_size: i32,
    pub paging_state: Option<Seq<char>>,
    pub timestamp: Option<i64>,
    pub retry_policy: Option<RetryPolicy>,
    pub custom_payload: Option<CustomPayload>,
    pub keyspace: Option<Seq<char>>,
    /// Parameter positions marked as part of the partition key, in the
    /// order the caller added them.
    pub key_indexes: Seq<u64>,
}

/// An executable query request: either an ad-hoc statement built from a
/// query string and a declared parameter count, or a statement derived
/// from a prepared template. It owns the parameter slots, the bound
/// values, and the query-scoped options, and releases them exactly once:
/// everything it holds is owned plain data, so leaving scope through any
/// exit path releases it, and the explicit `free` is idempotent. The
/// execution collaborator borrows a fully bound statement by reference
/// and never takes ownership.
pub struct Statement {
    live: bool,
    from_prepared: bool,
    query: Ghost<Seq<char>>,
    names: Vec<String>,
    slots: Vec<Option<TypedValue>>,
    consistency: Consistency,
    serial_consistency: Option<Consistency>,
    paging_size: i32,
    paging_state: Option<String>,
    timestamp: Option<i64>,
    retry_policy: Option<RetryPolicy>,
    custom_payload: Option<CustomPayload>,
    keyspace: Option<String>,
    key_indexes: Vec<u64>,
}

impl View for Statement {
    type V = StmtView;

    closed spec fn view(&self) -> StmtView {
        StmtView {
            live: self.live,
            from_prepared: self.from_prepared,
            query: self.query@,
            names: self.names.deep_view(),
            slots: self.slots.deep_view(),
            consistency: self.consistency,
            serial_consistency: self.serial_consistency,
            paging_size: self.paging_size,
            paging_state: self.paging_state.deep_view(),
            timestamp: self.timestamp,
            retry_policy: self.retry_policy,
            custom_payload: self.custom_payload,
            keyspace: self.keyspace.deep_view(),
            key_indexes: self.key_indexes@,
        }
    }
}

/// The state of a freshly constructed ad-hoc statement: live, no name
/// metadata, `count` empty slots, and every option at its default.
pub open spec fn adhoc_view(query: Seq<char>, count: nat) -> StmtView {
    StmtView {
        live: true,
        from_prepared: false,
        query: query,
        names: Seq::empty(),
        slots: Seq::new(count, |i: int| None),
        consistency: Consistency::LocalOne,
        serial_consistency: None,
        paging_size: PAGING_DISABLED,
        paging_state: None,
        timestamp: None,
        retry_policy: None,
        custom_payload: None,
        keyspace: None,
        key_indexes: Seq::empty(),
    }
}

/// The state of a statement after its resource is released; everything but
/// the liveness flag is kept, and releasing again changes nothing.
pub open spec fn released_view(v: StmtView) -> StmtView {
    StmtView { live: false, ..v }
}

/// The state of a statement freshly derived from a prepared template with
/// the given per-slot parameter names: one unbound slot per name, every
/// option at its default.
pub open spec fn derived_view(names: Seq<Seq<char>>) -> StmtView {
    StmtView {
        from_prepared: true,
        names: names,
        slots: Seq::new(names.len(), |i: int| None),
        ..adhoc_view(Seq::empty(), 0)
    }
}

impl Statement {
    /// Creates a new ad-hoc query statement with `parameter_count` unbound
    /// slots.
    ///
    /// Fails only if the query text cannot be represented in the resource
    /// layer's text encoding; no resource is left allocated in that case.
    pub fn new(query: &str, parameter_count: u64) -> (r: Result<Statement, CassError>)
        requires
            parameter_count <= usize::MAX,
        ensures
            r is Ok <==> text_ok(query@),
            r is Err ==> r == Err::<Statement, CassError>(CassError::InvalidText),
            r is Ok ==> r->Ok_0@ == adhoc_view(query@, parameter_count as nat),
    {
        if !text_check(query) {
            return Err(CassError::InvalidText);
        }
        let count = parameter_count as usize;
        let mut slots: Vec<Option<TypedValue>> = Vec::new();
        let mut i: usize = 0;
        while i < count
            invariant
                i <= count,
                slots@.len() == i,
                forall|j: int| 0 <= j < i ==> slots@[j] is None,
            decreases count - i,
        {
            slots.push(None);
            i += 1;
        }
        proof {
            assert(slots.deep_view() =~= Seq::new(count as nat, |j: int| None::<ValueView>));
        }
        let s = Statement {
            live: true,
            from_prepared: false,
            query: Ghost(query@),
            names: Vec::new(),
            slots,
            consistency: Consistency::LocalOne,
            serial_consistency: None,
            paging_size: PAGING_DISABLED,
            paging_state: None,
            timestamp: None,
            retry_policy: None,
            custom_payload: None,
            keyspace: None,
            key_indexes: Vec::new(),
        };
        proof {
            assert(s@ =~= adhoc_view(query@, parameter_count as nat));
        }
        Ok(s)
    }

    /// Builds the statement a prepared template yields: live, derived,
    /// carrying the template's per-slot names, with every slot unbound and
    /// every option at its default.
    pub(crate) fn derived_from(names: Vec<String>) -> (s: Statement)
        ensures
            s@ == derived_view(names.deep_view()),
    {
        let count = names.len();
        let mut slots: Vec<Option<TypedValue>> = Vec::new();
        let mut i: usize = 0;
        while i < count
            invariant
                i <= count,
                slots@.len() == i,
                forall|j: int| 0 <= j < i ==> slots@[j] is None,
            decreases count - i,
        {
            slots.push(None);
            i += 1;
        }
        proof {
            assert(slots.deep_view() =~= Seq::new(count as nat, |j: int| None::<ValueView>));
        }
        let s = Statement {
            live: true,
            from_prepared: true,
            query: Ghost(Seq::empty()),
            names,
            slots,
            consistency: Consistency::LocalOne,
            serial_consistency: None,
            paging_size: PAGING_DISABLED,
            paging_state: None,
            timestamp: None,
            retry_policy: None,
            custom_payload: None,
            keyspace: None,
            key_indexes: Vec::new(),
        };
        proof {
            assert(s@ =~= derived_view(s.names.deep_view()));
        }
        s
    }

    /// Releases the backing resource. Safe to call unconditionally: the
    /// first call releases, every further call is a no-op.
    pub fn free(&mut self)
        ensures
            final(self)@ == released_view(old(self)@),
    {
        self.live = false;
        proof {
            assert(self@ =~= released_view(old(self)@));
        }
    }

    /// Whether the backing resource has not yet been released.
    pub fn is_live(&self) -> (r: bool)
        ensures
            r == self@.live,
    {
        self.live
    }

    /// The declared number of parameter slots; fixed at construction, never
    /// grown or shrunk by binds.
    pub fn parameter_count(&self) -> (r: usize)
        ensures
            r == self@.slots.len(),
    {
        self.slots.len()
    }

    /// Adds a key index specifier: marks the parameter at `index` as part
    /// of the partition key for routing. Calls are cumulative, so composite
    /// partition keys come from consecutive calls.
    pub fn add_key_index(&mut self, index: u64) -> (r: Result<(), CassError>)
        ensures
            !old(self)@.live ==> r == Err::<(), CassError>(CassError::Released) && final(self)@
                == old(self)@,
            old(self)@.live && index >= old(self)@.slots.len() ==> r == Err::<(), CassError>(
                CassError::IndexOutOfRange,
            ) && final(self)@ == old(self)@,
            old(self)@.live && index < old(self)@.slots.len() ==> r == Ok::<(), CassError>(())
                && final(self)@ == (StmtView {
                key_indexes: old(self)@.key_indexes.push(index),
                ..old(self)@
            }),
    {
        if !self.live {
            return Err(CassError::Released);
        }
        if index >= self.slots.len() as u64 {
            return Err(CassError::IndexOutOfRange);
        }
        self.key_indexes.push(index);
        proof {
            assert(self@ =~= (StmtView {
                key_indexes: old(self)@.key_indexes.push(index),
                ..old(self)@
            }));
        }
        Ok(())
    }

    /// Sets the statement's keyspace for use with token-aware routing.
    pub fn set_keyspace(&mut self, keyspace: String) -> (r: Result<(), CassError>)
        ensures
            !old(self)@.live ==> r == Err::<(), CassError>(CassError::Released) && final(self)@
                == old(self)@,
            old(self)@.live && !text_ok(keyspace@) ==> r == Err::<(), CassError>(
                CassError::InvalidText,
            ) && final(self)@ == old(self)@,
            old(self)@.live && text_ok(keyspace@) ==> r == Ok::<(), CassError>(()) && final(self)@
                == (StmtView { keyspace: Some(keyspace@), ..old(self)@ }),
    {
        if !self.live {
            return Err(CassError::Released);
        }
        if !text_check(keyspace.as_str()) {
            return Err(CassError::InvalidText);
        }
        self.keyspace = Some(keyspace);
        proof {
            assert(self@ =~= (StmtView { keyspace: Some(keyspace@), ..old(self)@ }));
        }
        Ok(())
    }

    /// Sets the statement's consistency level. The default is
    /// `Consistency::LocalOne`.
    pub fn set_consistency(&mut self, consistency: Consistency) -> (r: Result<(), CassError>)
        ensures
            !old(self)@.live ==> r == Err::<(), CassError>(CassError::Released) && final(self)@
                == old(self)@,
            old(self)@.live ==> r == Ok::<(), CassError>(()) && final(self)@ == (StmtView {
                consistency: consistency,
                ..old(self)@
            }),
    {
        if !self.live {
            return Err(CassError::Released);
        }
        self.consistency = consistency;
        proof {
            assert(self@ =~= (StmtView { consistency: consistency, ..old(self)@ }));
        }
        Ok(())
    }

    /// Sets the statement's serial consistency level. Not set by default.
    pub fn set_serial_consistency(&mut self, serial_consistency: Consistency) -> (r: Result<
        (),
        CassError,
    >)
        ensures
            !old(self)@.live ==> r == Err::<(), CassError>(CassError::Released) && final(self)@
                == old(self)@,
            old(self)@.live ==> r == Ok::<(), CassError>(()) && final(self)@ == (StmtView {
                serial_consistency: Some(serial_consistency),
                ..old(self)@
            }),
    {
        if !self.live {
            return Err(CassError::Released);
        }
        self.serial_consistency = Some(serial_consistency);
        proof {
            assert(self@ =~= (StmtView {
                serial_consistency: Some(serial_consistency),
                ..old(self)@
            }));
        }
        Ok(())
    }

    /// Sets the statement's page size. `PAGING_DISABLED` (-1), the default,
    /// disables paging; a positive value enables paged results of that
    /// size.
    pub fn set_paging_size(&mut self, page_size: i32) -> (r: Result<(), CassError>)
        ensures
            !old(self)@.live ==> r == Err::<(), CassError>(CassError::Released) && final(self)@
                == old(self)@,
            old(self)@.live ==> r == Ok::<(), CassError>(()) && final(self)@ == with_paging_size(
                old(self)@,
                page_size,
            ),
    {
        if !self.live {
            return Err(CassError::Released);
        }
        self.paging_size = page_size;
        proof {
            assert(self@ =~= with_paging_size(old(self)@, page_size));
        }
        Ok(())
    }

    /// Continues a paged query: takes the paging token carried by a
    /// previous execution's result. Same effect as handing that token to
    /// `set_paging_state_token`.
    pub fn set_paging_state(&mut self, result: CassResult) -> (r: Result<(), CassError>)
        ensures
            !old(self)@.live ==> r == Err::<(), CassError>(CassError::Released) && final(self)@
                == old(self)@,
            old(self)@.live ==> r == Ok::<(), CassError>(()) && final(self)@ == with_paging_state(
                old(self)@,
                result.paging_token@,
            ),
    {
        if !self.live {
            return Err(CassError::Released);
        }
        self.paging_state = Some(result.paging_token);
        proof {
            assert(self@ =~= with_paging_state(old(self)@, result.paging_token@));
        }
        Ok(())
    }

    /// Continues a paged query from an opaque paging token.
    ///
    /// The token must not be exposed to or accepted from untrusted
    /// environments: a forged or tampered token may grant access to data
    /// outside the originating query's authorization scope.
    pub fn set_paging_state_token(&mut self, paging_state: &str) -> (r: Result<(), CassError>)
        ensures
            !old(self)@.live ==> r == Err::<(), CassError>(CassError::Released) && final(self)@
                == old(self)@,
            old(self)@.live ==> r == Ok::<(), CassError>(()) && final(self)@ == with_paging_state(
                old(self)@,
                paging_state@,
            ),
    {
        if !self.live {
            return Err(CassError::Released);
        }
        self.paging_state = Some(paging_state.to_owned());
        proof {
            assert(self@ =~= with_paging_state(old(self)@, paging_state@));
        }
        Ok(())
    }

    /// Sets the statement's timestamp.
    pub fn set_timestamp(&mut self, timestamp: i64) -> (r: Result<(), CassError>)
        ensures
            !old(self)@.live ==> r == Err::<(), CassError>(CassError::Released) && final(self)@
                == old(self)@,
            old(self)@.live ==> r == Ok::<(), CassError>(()) && final(self)@ == (StmtView {
                timestamp: Some(timestamp),
                ..old(self)@
            }),
    {
        if !self.live {
            return Err(CassError::Released);
        }
        self.timestamp = Some(timestamp);
        proof {
            assert(self@ =~= (StmtView { timestamp: Some(timestamp), ..old(self)@ }));
        }
        Ok(())
    }

    /// Stores a reference to an externally owned retry policy.
    pub fn set_retry_policy(&mut self, retry_policy: RetryPolicy) -> (r: Result<(), CassError>)
        ensures
            !old(self)@.live ==> r == Err::<(), CassError>(CassError::Released) && final(self)@
                == old(self)@,
            old(self)@.live ==> r == Ok::<(), CassError>(()) && final(self)@ == (StmtView {
                retry_policy: Some(retry_policy),
                ..old(self)@
            }),
    {
        if !self.live {
            return Err(CassError::Released);
        }
        self.retry_policy = Some(retry_policy);
        proof {
            assert(self@ =~= (StmtView { retry_policy: Some(retry_policy), ..old(self)@ }));
        }
        Ok(())
    }

    /// Stores a reference to an externally owned custom payload.
    pub fn set_custom_payload(&mut self, payload: CustomPayload) -> (r: Result<(), CassError>)
        ensures
            !old(self)@.live ==> r == Err::<(), CassError>(CassError::Released) && final(self)@
                == old(self)@,
            old(self)@.live ==> r == Ok::<(), CassError>(()) && final(self)@ == (StmtView {
                custom_payload: Some(payload),
                ..old(self)@
            }),
    {
        if !self.live {
            return Err(CassError::Released);
        }
        self.custom_payload = Some(payload);
        proof {
            assert(self@ =~= (StmtView { custom_payload: Some(payload), ..old(self)@ }));
        }
        Ok(())
    }
}

/// The view transform `set_paging_size` applies.
pub open spec fn with_paging_size(v: StmtView, page_size: i32) -> StmtView {
    StmtView { paging_size: page_size, ..v }
}

/// The view transform both paging-state setters apply: the statement
/// remembers the continuation token.
pub open spec fn with_paging_state(v: StmtView, token: Seq<char>) -> StmtView {
    StmtView { paging_state: Some(token), ..v }
}

/// Whether slot `i` carries the parameter name `name`; only slots of a
/// prepared-derived statement carry names.
pub open spec fn slot_named(v: StmtView, i: int, name: Seq<char>) -> bool {
    0 <= i < v.names.len() && v.names[i] == name
}

/// Whether some parameter slot carries the name `name`.
pub open spec fn has_param_name(v: StmtView, name: Seq<char>) -> bool {
    exists|i: int| 0 <= i < v.slots.len() && slot_named(v, i, name)
}

/// Why a position-addressed bind fails, or `None` when it succeeds: the
/// handle must be live, the position must lie below the declared parameter
/// count, and the value must be representable in wire form.
pub open spec fn bind_pos_check(v: StmtView, index: u64, val: ValueView) -> Option<CassError> {
    if !v.live {
        Some(CassError::Released)
    } else if index >= v.slots.len() {
        Some(CassError::IndexOutOfRange)
    } else if !value_ok(val) {
        Some(CassError::ValueEncoding)
    } else {
        None
    }
}

/// What a position-addressed bind does to the statement: on success the
/// one addressed slot holds the new value, last write wins; on failure
/// nothing changes.
pub open spec fn bind_pos_step(v: StmtView, index: u64, val: ValueView) -> StmtView {
    if bind_pos_check(v, index, val) is None {
        StmtView { slots: v.slots.update(index as int, Some(val)), ..v }
    } else {
        v
    }
}

/// Why a name-addressed bind fails, or `None` when it succeeds. An ad-hoc
/// statement carries no name metadata, so on it every name is an
/// addressing error, whatever the name.
pub open spec fn bind_name_check(v: StmtView, name: Seq<char>, val: ValueView) -> Option<
    CassError,
> {
    if !v.live {
        Some(CassError::Released)
    } else if !v.from_prepared {
        Some(CassError::NameNotFound)
    } else if !text_ok(name) {
        Some(CassError::InvalidText)
    } else if !has_param_name(v, name) {
        Some(CassError::NameNotFound)
    } else if !value_ok(val) {
        Some(CassError::ValueEncoding)
    } else {
        None
    }
}

/// What a name-addressed bind does to the statement: on success every slot
/// carrying the name receives the value; on failure nothing changes.
pub open spec fn bind_name_step(v: StmtView, name: Seq<char>, val: ValueView) -> StmtView {
    if bind_name_check(v, name, val) is None {
        StmtView {
            slots: Seq::new(
                v.slots.len(),
                |i: int|
                    if slot_named(v, i, name) {
                        Some(val)
                    } else {
                        v.slots[i]
                    },
            ),
            ..v
        }
    } else {
        v
    }
}

impl Statement {
    /// Binds a value to the parameter slot at `index`. Binding never grows
    /// or shrinks the slot set; it only assigns into an existing slot, and
    /// a second bind to the same slot overwrites the first.
    pub fn bind_value(&mut self, index: u64, value: TypedValue) -> (r: Result<(), CassError>)
        ensures
            final(self)@ == bind_pos_step(old(self)@, index, value.deep_view()),
            r == to_result(bind_pos_check(old(self)@, index, value.deep_view())),
    {
        if !self.live {
            return Err(CassError::Released);
        }
        if index >= self.slots.len() as u64 {
            return Err(CassError::IndexOutOfRange);
        }
        if !value.encodable() {
            return Err(CassError::ValueEncoding);
        }
        let i = index as usize;
        self.slots[i] = Some(value);
        proof {
            assert(self.slots.deep_view() =~= old(self).slots.deep_view().update(
                index as int,
                Some(value.deep_view()),
            ));
            assert(self@ =~= bind_pos_step(old(self)@, index, value.deep_view()));
        }
        Ok(())
    }

    /// Binds a value to every parameter slot carrying `name`. Only
    /// statements derived from a prepared template carry name metadata;
    /// on an ad-hoc statement this always fails with an addressing error.
    pub fn bind_value_by_name(&mut self, name: &str, value: TypedValue) -> (r: Result<
        (),
        CassError,
    >)
        ensures
            final(self)@ == bind_name_step(old(self)@, name@, value.deep_view()),
            r == to_result(bind_name_check(old(self)@, name@, value.deep_view())),
    {
        if !self.live {
            return Err(CassError::Released);
        }
        if !self.from_prepared {
            return Err(CassError::NameNotFound);
        }
        if !text_check(name) {
            return Err(CassError::InvalidText);
        }
        let name_owned: String = name.to_owned();
        if !self.has_name_slot(&name_owned) {
            return Err(CassError::NameNotFound);
        }
        if !value.encodable() {
            return Err(CassError::ValueEncoding);
        }
        let ghost v0 = self@;
        let ghost val = value.deep_view();
        let mut i: usize = 0;
        while i < self.slots.len()
            invariant
                i <= self.slots.len(),
                self.live == v0.live,
                self.from_prepared == v0.from_prepared,
                self.query@ == v0.query,
                self.names.deep_view() == v0.names,
                self.slots@.len() == v0.slots.len(),
                self.consistency == v0.consistency,
                self.serial_consistency == v0.serial_consistency,
                self.paging_size == v0.paging_size,
                self.paging_state.deep_view() == v0.paging_state,
                self.timestamp == v0.timestamp,
                self.retry_policy == v0.retry_policy,
                self.custom_payload == v0.custom_payload,
                self.keyspace.deep_view() == v0.keyspace,
                self.key_indexes@ == v0.key_indexes,
                name_owned@ == name@,
                value.deep_view() == val,
                forall|j: int|
                    0 <= j < i ==> self.slots.deep_view()[j] == (if slot_named(v0, j, name@) {
                        Some(val)
                    } else {
                        v0.slots[j]
                    }),
                forall|j: int|
                    i <= j < v0.slots.len() ==> self.slots.deep_view()[j] == v0.slots[j],
            decreases self.slots.len() - i,
        {
            let ghost pre = self.slots.deep_view();
            if i < self.names.len() {
                let nm_eq = self.names[i].eq(&name_owned);
                proof {
                    assert(self.names.deep_view()[i as int] == self.names@[i as int]@);
                    assert(nm_eq == slot_named(v0, i as int, name@));
                }
                if nm_eq {
                    self.slots[i] = Some(value.clone());
                    proof {
                        assert(self.slots.deep_view() =~= pre.update(i as int, Some(val)));
                    }
                }
            }
            i += 1;
        }
        proof {
            assert(self@ =~= bind_name_step(v0, name@, val));
        }
        Ok(())
    }

    /// Binds a value to the slot or slots the address names: one slot for
    /// a position, every slot sharing the name for a name. Both addressing
    /// modes have the same semantics apart from the lookup strategy.
    pub fn bind_addressed(&mut self, addr: &ParameterAddress, value: TypedValue) -> (r: Result<
        (),
        CassError,
    >)
        ensures
            final(self)@ == (match *addr {
                ParameterAddress::Position(i) => bind_pos_step(old(self)@, i, value.deep_view()),
                ParameterAddress::Name(n) => bind_name_step(old(self)@, n@, value.deep_view()),
            }),
            r == (match *addr {
                ParameterAddress::Position(i) => to_result(
                    bind_pos_check(old(self)@, i, value.deep_view()),
                ),
                ParameterAddress::Name(n) => to_result(
                    bind_name_check(old(self)@, n@, value.deep_view()),
                ),
            }),
    {
        match addr {
            ParameterAddress::Position(i) => self.bind_value(*i, value),
            ParameterAddress::Name(n) => self.bind_value_by_name(n.as_str(), value),
        }
    }

    /// Whether some parameter slot carries `name`.
    fn has_name_slot(&self, name: &String) -> (r: bool)
        ensures
            r == has_param_name(self@, name@),
    {
        let mut i: usize = 0;
        let limit = if self.names.len() < self.slots.len() {
            self.names.len()
        } else {
            self.slots.len()
        };
        while i < limit
            invariant
                i <= limit,
                limit <= self.names.len(),
                limit <= self.slots.len(),
                limit == if self.names@.len() < self.slots@.len() {
                    self.names@.len() as int
                } else {
                    self.slots@.len() as int
                },
                forall|j: int| 0 <= j < i ==> !slot_named(self@, j, name@),
            decreases limit - i,
        {
            if self.names[i].eq(name) {
                assert(slot_named(self@, i as int, name@));
                return true;
            }
            i += 1;
        }
        false
    }

    /// Binds null to the slot at the specified index.
    pub fn bind_null(&mut self, index: u64) -> (r: Result<(), CassError>)
        ensures
            final(self)@ == bind_pos_step(old(self)@, index, ValueView::Null),
            r == to_result(bind_pos_check(old(self)@, index, ValueView::Null)),
    {
        self.bind_value(index, TypedValue::Null)
    }

    /// Binds null to all the slots with the specified name.
    pub fn bind_null_by_name(&mut self, name: &str) -> (r: Result<(), CassError>)
        ensures
            final(self)@ == bind_name_step(old(self)@, name@, ValueView::Null),
            r == to_result(bind_name_check(old(self)@, name@, ValueView::Null)),
    {
        self.bind_value_by_name(name, TypedValue::Null)
    }

    /// Binds a "tinyint" to the slot at the specified index.
    pub fn bind_int8(&mut self, index: u64, value: i8) -> (r: Result<(), CassError>)
        ensures
            final(self)@ == bind_pos_step(old(self)@, index, ValueView::Int8(value)),
            r == to_result(bind_pos_check(old(self)@, index, ValueView::Int8(value))),
    {
        self.bind_value(index, TypedValue::Int8(value))
    }

    /// Binds a "tinyint" to all the slots with the specified name.
    pub fn bind_int8_by_name(&mut self, name: &str, value: i8) -> (r: Result<(), CassError>)
        ensures
            final(self)@ == bind_name_step(old(self)@, name@, ValueView::Int8(value)),
            r == to_result(bind_name_check(old(self)@, name@, ValueView::Int8(value))),
    {
        self.bind_value_by_name(name, TypedValue::Int8(value))
    }

    /// Binds a "smallint" to the slot at the specified index.
    pub fn bind_int16(&mut self, index: u64, value: i16) -> (r: Result<(), CassError>)
        ensures
            final(self)@ == bind_pos_step(old(self)@, index, ValueView::Int16(value)),
            r == to_result(bind_pos_check(old(self)@, index, ValueView::Int16(value))),
    {
        self.bind_value(index, TypedValue::Int16(value))
    }

    /// Binds a "smallint" to all the slots with the specified name.
    pub fn bind_int16_by_name(&mut self, name: &str, value: i16) -> (r: Result<(), CassError>)
        ensures
            final(self)@ == bind_name_step(old(self)@, name@, ValueView::Int16(value)),
            r == to_result(bind_name_check(old(self)@, name@, ValueView::Int16(value))),
    {
        self.bind_value_by_name(name, TypedValue::Int16(value))
    }

    /// Binds an "int" to the slot at the specified index.
    pub fn bind_int32(&mut self, index: u64, value: i32) -> (r: Result<(), CassError>)
        ensures
            final(self)@ == bind_pos_step(old(self)@, index, ValueView::Int32(value)),
            r == to_result(bind_pos_check(old(self)@, index, ValueView::Int32(value))),
    {
        self.bind_value(index, TypedValue::Int32(value))
    }

    /// Binds an "int" to all the slots with the specified name.
    pub fn bind_int32_by_name(&mut self, name: &str, value: i32) -> (r: Result<(), CassError>)
        ensures
            final(self)@ == bind_name_step(old(self)@, name@, ValueView::Int32(value)),
            r == to_result(bind_name_check(old(self)@, name@, ValueView::Int32(value))),
    {
        self.bind_value_by_name(name, TypedValue::Int32(value))
    }

    /// Binds a "date" to the slot at the specified index.
    pub fn bind_uint32(&mut self, index: u64, value: u32) -> (r: Result<(), CassError>)
        ensures
            final(self)@ == bind_pos_step(old(self)@, index, ValueView::Uint32(value)),
            r == to_result(bind_pos_check(old(self)@, index, ValueView::Uint32(value))),
    {
        self.bind_value(index, TypedValue::Uint32(value))
    }

    /// Binds a "date" to all the slots with the specified name.
    pub fn bind_uint32_by_name(&mut self, name: &str, value: u32) -> (r: Result<(), CassError>)
        ensures
            final(self)@ == bind_name_step(old(self)@, name@, ValueView::Uint32(value)),
            r == to_result(bind_name_check(old(self)@, name@, ValueView::Uint32(value))),
    {
        self.bind_value_by_name(name, TypedValue::Uint32(value))
    }

    /// Binds a "bigint", "counter", "timestamp" or "time" to the slot at
    /// the specified index.
    pub fn bind_int64(&mut self, index: u64, value: i64) -> (r: Result<(), CassError>)
        ensures
            final(self)@ == bind_pos_step(old(self)@, index, ValueView::Int64(value)),
            r == to_result(bind_pos_check(old(self)@, index, ValueView::Int64(value))),
    {
        self.bind_value(index, TypedValue::Int64(value))
    }

    /// Binds a "bigint", "counter", "timestamp" or "time" to all the slots
    /// with the specified name.
    pub fn bind_int64_by_name(&mut self, name: &str, value: i64) -> (r: Result<(), CassError>)
        ensures
            final(self)@ == bind_name_step(old(self)@, name@, ValueView::Int64(value)),
            r == to_result(bind_name_check(old(self)@, name@, ValueView::Int64(value))),
    {
        self.bind_value_by_name(name, TypedValue::Int64(value))
    }

    /// Binds a "float" to the slot at the specified index; `bits` is the
    /// value's IEEE-754 bit pattern, which is what the wire carries.
    pub fn bind_float(&mut self, index: u64, bits: u32) -> (r: Result<(), CassError>)
        ensures
            final(self)@ == bind_pos_step(old(self)@, index, ValueView::FloatBits(bits)),
            r == to_result(bind_pos_check(old(self)@, index, ValueView::FloatBits(bits))),
    {
        self.bind_value(index, TypedValue::FloatBits(bits))
    }

    /// Binds a "float" to all the slots with the specified name; `bits` is
    /// the value's IEEE-754 bit pattern.
    pub fn bind_float_by_name(&mut self, name: &str, bits: u32) -> (r: Result<(), CassError>)
        ensures
            final(self)@ == bind_name_step(old(self)@, name@, ValueView::FloatBits(bits)),
            r == to_result(bind_name_check(old(self)@, name@, ValueView::FloatBits(bits))),
    {
        self.bind_value_by_name(name, TypedValue::FloatBits(bits))
    }

    /// Binds a "double" to the slot at the specified index; `bits` is the
    /// value's IEEE-754 bit pattern, which is what the wire carries.
    pub fn bind_double(&mut self, index: u64, bits: u64) -> (r: Result<(), CassError>)
        ensures
            final(self)@ == bind_pos_step(old(self)@, index, ValueView::DoubleBits(bits)),
            r == to_result(bind_pos_check(old(self)@, index, ValueView::DoubleBits(bits))),
    {
        self.bind_value(index, TypedValue::DoubleBits(bits))
    }

    /// Binds a "double" to all the slots with the specified name; `bits`
    /// is the value's IEEE-754 bit pattern.
    pub fn bind_double_by_name(&mut self, name: &str, bits: u64) -> (r: Result<(), CassError>)
        ensures
            final(self)@ == bind_name_step(old(self)@, name@, ValueView::DoubleBits(bits)),
            r == to_result(bind_name_check(old(self)@, name@, ValueView::DoubleBits(bits))),
    {
        self.bind_value_by_name(name, TypedValue::DoubleBits(bits))
    }

    /// Binds a "boolean" to the slot at the specified index.
    pub fn bind_bool(&mut self, index: u64, value: bool) -> (r: Result<(), CassError>)
        ensures
            final(self)@ == bind_pos_step(old(self)@, index, ValueView::Bool(value)),
            r == to_result(bind_pos_check(old(self)@, index, ValueView::Bool(value))),
    {
        self.bind_value(index, TypedValue::Bool(value))
    }

    /// Binds a "boolean" to all the slots with the specified name.
    pub fn bind_bool_by_name(&mut self, name: &str, value: bool) -> (r: Result<(), CassError>)
        ensures
            final(self)@ == bind_name_step(old(self)@, name@, ValueView::Bool(value)),
            r == to_result(bind_name_check(old(self)@, name@, ValueView::Bool(value))),
    {
        self.bind_value_by_name(name, TypedValue::Bool(value))
    }

    /// Binds an "ascii", "text" or "varchar" to the slot at the specified
    /// index.
    pub fn bind_string(&mut self, index: u64, value: &str) -> (r: Result<(), CassError>)
        ensures
            final(self)@ == bind_pos_step(old(self)@, index, ValueView::Text(value@)),
            r == to_result(bind_pos_check(old(self)@, index, ValueView::Text(value@))),
    {
        self.bind_value(index, TypedValue::Text(value.to_owned()))
    }

    /// Binds an "ascii", "text" or "varchar" to all the slots with the
    /// specified name.
    pub fn bind_string_by_name(&mut self, name: &str, value: &str) -> (r: Result<(), CassError>)
        ensures
            final(self)@ == bind_name_step(old(self)@, name@, ValueView::Text(value@)),
            r == to_result(bind_name_check(old(self)@, name@, ValueView::Text(value@))),
    {
        self.bind_value_by_name(name, TypedValue::Text(value.to_owned()))
    }

    /// Binds a "blob", "varint" or "custom" to the slot at the specified
    /// index.
    pub fn bind_bytes(&mut self, index: u64, value: Vec<u8>) -> (r: Result<(), CassError>)
        ensures
            final(self)@ == bind_pos_step(old(self)@, index, ValueView::Bytes(value@)),
            r == to_result(bind_pos_check(old(self)@, index, ValueView::Bytes(value@))),
    {
        self.bind_value(index, TypedValue::Bytes(value))
    }

    /// Binds a "blob", "varint" or "custom" to all the slots with the
    /// specified name.
    pub fn bind_bytes_by_name(&mut self, name: &str, value: Vec<u8>) -> (r: Result<(), CassError>)
        ensures
            final(self)@ == bind_name_step(old(self)@, name@, ValueView::Bytes(value@)),
            r == to_result(bind_name_check(old(self)@, name@, ValueView::Bytes(value@))),
    {
        self.bind_value_by_name(name, TypedValue::Bytes(value))
    }

    /// Binds a "uuid" or "timeuuid" to the slot at the specified index.
    pub fn bind_uuid(&mut self, index: u64, value: Uuid) -> (r: Result<(), CassError>)
        ensures
            final(self)@ == bind_pos_step(old(self)@, index, ValueView::Uuid(value)),
            r == to_result(bind_pos_check(old(self)@, index, ValueView::Uuid(value))),
    {
        self.bind_value(index, TypedValue::Uuid(value))
    }

    /// Binds a "uuid" or "timeuuid" to all the slots with the specified
    /// name.
    pub fn bind_uuid_by_name(&mut self, name: &str, value: Uuid) -> (r: Result<(), CassError>)
        ensures
            final(self)@ == bind_name_step(old(self)@, name@, ValueView::Uuid(value)),
            r == to_result(bind_name_check(old(self)@, name@, ValueView::Uuid(value))),
    {
        self.bind_value_by_name(name, TypedValue::Uuid(value))
    }

    /// Binds an "inet" to the slot at the specified index.
    pub fn bind_inet(&mut self, index: u64, value: Inet) -> (r: Result<(), CassError>)
        ensures
            final(self)@ == bind_pos_step(old(self)@, index, ValueView::Inet(value.octets@)),
            r == to_result(bind_pos_check(old(self)@, index, ValueView::Inet(value.octets@))),
    {
        self.bind_value(index, TypedValue::Inet(value))
    }

    /// Binds an "inet" to all the slots with the specified name.
    pub fn bind_inet_by_name(&mut self, name: &str, value: Inet) -> (r: Result<(), CassError>)
        ensures
            final(self)@ == bind_name_step(old(self)@, name@, ValueView::Inet(value.octets@)),
            r == to_result(bind_name_check(old(self)@, name@, ValueView::Inet(value.octets@))),
    {
        self.bind_value_by_name(name, TypedValue::Inet(value))
    }

    /// Binds a pre-built "map" collection to the slot at the specified
    /// index.
    pub fn bind_map(&mut self, index: u64, map: MapHandle) -> (r: Result<(), CassError>)
        ensures
            final(self)@ == bind_pos_step(old(self)@, index, ValueView::MapVal(map.id)),
            r == to_result(bind_pos_check(old(self)@, index, ValueView::MapVal(map.id))),
    {
        self.bind_value(index, TypedValue::MapVal(map))
    }

    /// Binds a pre-built "map" collection to all the slots with the
    /// specified name.
    pub fn bind_map_by_name(&mut self, name: &str, map: MapHandle) -> (r: Result<(), CassError>)
        ensures
            final(self)@ == bind_name_step(old(self)@, name@, ValueView::MapVal(map.id)),
            r == to_result(bind_name_check(old(self)@, name@, ValueView::MapVal(map.id))),
    {
        self.bind_value_by_name(name, TypedValue::MapVal(map))
    }

    /// Binds a pre-built "set" collection to the slot at the specified
    /// index.
    pub fn bind_set(&mut self, index: u64, collection: SetHandle) -> (r: Result<(), CassError>)
        ensures
            final(self)@ == bind_pos_step(old(self)@, index, ValueView::SetVal(collection.id)),
            r == to_result(bind_pos_check(old(self)@, index, ValueView::SetVal(collection.id))),
    {
        self.bind_value(index, TypedValue::SetVal(collection))
    }

    /// Binds a pre-built "set" collection to all the slots with the
    /// specified name.
    pub fn bind_set_by_name(&mut self, name: &str, collection: SetHandle) -> (r: Result<
        (),
        CassError,
    >)
        ensures
            final(self)@ == bind_name_step(old(self)@, name@, ValueView::SetVal(collection.id)),
            r == to_result(bind_name_check(old(self)@, name@, ValueView::SetVal(collection.id))),
    {
        self.bind_value_by_name(name, TypedValue::SetVal(collection))
    }

    /// Binds a pre-built "list" collection to the slot at the specified
    /// index.
    pub fn bind_list(&mut self, index: u64, collection: ListHandle) -> (r: Result<(), CassError>)
        ensures
            final(self)@ == bind_pos_step(old(self)@, index, ValueView::ListVal(collection.id)),
            r == to_result(bind_pos_check(old(self)@, index, ValueView::ListVal(collection.id))),
    {
        self.bind_value(index, TypedValue::ListVal(collection))
    }

    /// Binds a pre-built "list" collection to all the slots with the
    /// specified name.
    pub fn bind_list_by_name(&mut self, name: &str, collection: ListHandle) -> (r: Result<
        (),
        CassError,
    >)
        ensures
            final(self)@ == bind_name_step(old(self)@, name@, ValueView::ListVal(collection.id)),
            r == to_result(bind_name_check(old(self)@, name@, ValueView::ListVal(collection.id))),
    {
        self.bind_value_by_name(name, TypedValue::ListVal(collection))
    }

    /// Binds a pre-built "tuple" to the slot at the specified index.
    pub fn bind_tuple(&mut self, index: u64, value: TupleHandle) -> (r: Result<(), CassError>)
        ensures
            final(self)@ == bind_pos_step(old(self)@, index, ValueView::TupleVal(value.id)),
            r == to_result(bind_pos_check(old(self)@, index, ValueView::TupleVal(value.id))),
    {
        self.bind_value(index, TypedValue::TupleVal(value))
    }

    /// Binds a pre-built "tuple" to all the slots with the specified name.
    pub fn bind_tuple_by_name(&mut self, name: &str, value: TupleHandle) -> (r: Result<
        (),
        CassError,
    >)
        ensures
            final(self)@ == bind_name_step(old(self)@, name@, ValueView::TupleVal(value.id)),
            r == to_result(bind_name_check(old(self)@, name@, ValueView::TupleVal(value.id))),
    {
        self.bind_value_by_name(name, TypedValue::TupleVal(value))
    }

    /// Binds a pre-built user-defined-type record to the slot at the
    /// specified index.
    pub fn bind_user_type(&mut self, index: u64, value: UserTypeHandle) -> (r: Result<
        (),
        CassError,
    >)
        ensures
            final(self)@ == bind_pos_step(old(self)@, index, ValueView::UserTypeVal(value.id)),
            r == to_result(bind_pos_check(old(self)@, index, ValueView::UserTypeVal(value.id))),
    {
        self.bind_value(index, TypedValue::UserTypeVal(value))
    }

    /// Binds a pre-built user-defined-type record to all the slots with
    /// the specified name.
    pub fn bind_user_type_by_name(&mut self, name: &str, value: UserTypeHandle) -> (r: Result<
        (),
        CassError,
    >)
        ensures
            final(self)@ == bind_name_step(old(self)@, name@, ValueView::UserTypeVal(value.id)),
            r == to_result(bind_name_check(old(self)@, name@, ValueView::UserTypeVal(value.id))),
    {
        self.bind_value_by_name(name, TypedValue::UserTypeVal(value))
    }

    /// The value currently bound to the slot at `index`, or `None` for a
    /// still-unbound slot: what the execution collaborator would read from
    /// this slot when the statement is executed.
    pub fn bound_value(&self, index: u64) -> (r: Result<&Option<TypedValue>, CassError>)
        ensures
            !self@.live ==> r == Err::<&Option<TypedValue>, CassError>(CassError::Released),
            self@.live && index >= self@.slots.len() ==> r == Err::<
                &Option<TypedValue>,
                CassError,
            >(CassError::IndexOutOfRange),
            self@.live && index < self@.slots.len() ==> r is Ok && r->Ok_0.deep_view()
                == self@.slots[index as int],
    {
        if !self.live {
            return Err(CassError::Released);
        }
        if index >= self.slots.len() as u64 {
            return Err(CassError::IndexOutOfRange);
        }
        Ok(&self.slots[index as usize])
    }

    /// The statement's current page size; `PAGING_DISABLED` means paging
    /// is off, which is the default.
    pub fn paging_size(&self) -> (r: i32)
        ensures
            r == self@.paging_size,
    {
        self.paging_size
    }

    /// The statement's consistency level.
    pub fn consistency(&self) -> (r: Consistency)
        ensures
            r == self@.consistency,
    {
        self.consistency
    }

    /// The statement's serial consistency level, if one was set.
    pub fn serial_consistency(&self) -> (r: Option<Consistency>)
        ensures
            r == self@.serial_consistency,
    {
        self.serial_consistency
    }

    /// The statement's timestamp, if one was set.
    pub fn timestamp(&self) -> (r: Option<i64>)
        ensures
            r == self@.timestamp,
    {
        self.timestamp
    }

    /// The retry policy reference the statement carries, if one was set.
    pub fn retry_policy(&self) -> (r: Option<RetryPolicy>)
        ensures
            r == self@.retry_policy,
    {
        self.retry_policy
    }

    /// The custom payload reference the statement carries, if one was set.
    pub fn custom_payload(&self) -> (r: Option<CustomPayload>)
        ensures
            r == self@.custom_payload,
    {
        self.custom_payload
    }

    /// The statement's keyspace hint, if one was set.
    pub fn keyspace(&self) -> (r: Option<&str>)
        ensures
            r is Some <==> self@.keyspace is Some,
            r is Some ==> r->0@ == self@.keyspace->0,
    {
        match &self.keyspace {
            Some(k) => Some(k.as_str()),
            None => None,
        }
    }

    /// The paging continuation token the statement carries, if one was
    /// set.
    pub fn paging_state(&self) -> (r: Option<&str>)
        ensures
            r is Some <==> self@.paging_state is Some,
            r is Some ==> r->0@ == self@.paging_state->0,
    {
        match &self.paging_state {
            Some(t) => Some(t.as_str()),
            None => None,
        }
    }

    /// The parameter positions marked as part of the partition key, in
    /// the order they were added.
    pub fn key_indexes(&self) -> (r: &Vec<u64>)
        ensures
            r@ == self@.key_indexes,
    {
        &self.key_indexes
    }
}

/// One generic bind entry point per Rust value type: every implementation
/// maps exactly one source type to exactly one wire-encoding call, with no
/// implicit numeric widening or narrowing.
pub trait BindRustType<T> {
    /// The statement state this binder acts on.
    spec fn stmt_view(&self) -> StmtView;

    /// The wire form the bound value takes.
    spec fn bound_form(value: &T) -> ValueView;

    /// Binds `value` to the slot at `index`.
    fn bind(&mut self, index: u64, value: T) -> (r: Result<(), CassError>)
        ensures
            final(self).stmt_view() == bind_pos_step(
                old(self).stmt_view(),
                index,
                Self::bound_form(&value),
            ),
            r == to_result(
                bind_pos_check(old(self).stmt_view(), index, Self::bound_form(&value)),
            ),
    ;

    /// Binds `value` to every slot carrying the name `col`.
    fn bind_by_name(&mut self, col: &str, value: T) -> (r: Result<(), CassError>)
        ensures
            final(self).stmt_view() == bind_name_step(
                old(self).stmt_view(),
                col@,
                Self::bound_form(&value),
            ),
            r == to_result(
                bind_name_check(old(self).stmt_view(), col@, Self::bound_form(&value)),
            ),
    ;
}

impl BindRustType<bool> for Statement {
    open spec fn stmt_view(&self) -> StmtView {
        self@
    }

    open spec fn bound_form(value: &bool) -> ValueView {
        ValueView::Bool(*value)
    }

    fn bind(&mut self, index: u64, value: bool) -> (r: Result<(), CassError>) {
        self.bind_bool(index, value)
    }

    fn bind_by_name(&mut self, col: &str, value: bool) -> (r: Result<(), CassError>) {
        self.bind_bool_by_name(col, value)
    }
}

impl BindRustType<i32> for Statement {
    open spec fn stmt_view(&self) -> StmtView {
        self@
    }

    open spec fn bound_form(value: &i32) -> ValueView {
        ValueView::Int32(*value)
    }

    fn bind(&mut self, index: u64, value: i32) -> (r: Result<(), CassError>) {
        self.bind_int32(index, value)
    }

    fn bind_by_name(&mut self, col: &str, value: i32) -> (r: Result<(), CassError>) {
        self.bind_int32_by_name(col, value)
    }
}

impl BindRustType<i64> for Statement {
    open spec fn stmt_view(&self) -> StmtView {
        self@
    }

    open spec fn bound_form(value: &i64) -> ValueView {
        ValueView::Int64(*value)
    }

    fn bind(&mut self, index: u64, value: i64) -> (r: Result<(), CassError>) {
        self.bind_int64(index, value)
    }

    fn bind_by_name(&mut self, col: &str, value: i64) -> (r: Result<(), CassError>) {
        self.bind_int64_by_name(col, value)
    }
}

impl<'a> BindRustType<&'a str> for Statement {
    open spec fn stmt_view(&self) -> StmtView {
        self@
    }

    open spec fn bound_form(value: &&'a str) -> ValueView {
        ValueView::Text((*value)@)
    }

    fn bind(&mut self, index: u64, value: &'a str) -> (r: Result<(), CassError>) {
        self.bind_string(index, value)
    }

    fn bind_by_name(&mut self, col: &str, value: &'a str) -> (r: Result<(), CassError>) {
        self.bind_string_by_name(col, value)
    }
}

impl BindRustType<Uuid> for Statement {
    open spec fn stmt_view(&self) -> StmtView {
        self@
    }

    open spec fn bound_form(value: &Uuid) -> ValueView {
        ValueView::Uuid(*value)
    }

    fn bind(&mut self, index: u64, value: Uuid) -> (r: Result<(), CassError>) {
        self.bind_uuid(index, value)
    }

    fn bind_by_name(&mut self, col: &str, value: Uuid) -> (r: Result<(), CassError>) {
        self.bind_uuid_by_name(col, value)
    }
}

impl BindRustType<SetHandle> for Statement {
    open spec fn stmt_view(&self) -> StmtView {
        self@
    }

    open spec fn bound_form(value: &SetHandle) -> ValueView {
        ValueView::SetVal(value.id)
    }

    fn bind(&mut self, index: u64, value: SetHandle) -> (r: Result<(), CassError>) {
        self.bind_set(index, value)
    }

    fn bind_by_name(&mut self, col: &str, value: SetHandle) -> (r: Result<(), CassError>) {
        self.bind_set_by_name(col, value)
    }
}

impl BindRustType<MapHandle> for Statement {
    open spec fn stmt_view(&self) -> StmtView {
        self@
    }

    open spec fn bound_form(value: &MapHandle) -> ValueView {
        ValueView::MapVal(value.id)
    }

    fn bind(&mut self, index: u64, value: MapHandle) -> (r: Result<(), CassError>) {
        self.bind_map(index, value)
    }

    fn bind_by_name(&mut self, col: &str, value: MapHandle) -> (r: Result<(), CassError>) {
        self.bind_map_by_name(col, value)
    }
}

/// How many times `c` occurs in `s`.
pub open spec fn count_char(s: Seq<char>, c: char) -> nat
    decreases s.len(),
{
    if s.len() == 0 {
        0
    } else {
        count_char(s.drop_last(), c) + if s.last() == c {
            1nat
        } else {
            0nat
        }
    }
}

/// Builds an ad-hoc statement directly from a query string, declaring one
/// parameter slot per placeholder character (`?`) in the query. The count
/// carries no further obligation: a `?` inside a string literal of the
/// query counts like any other.
pub fn stmt(query: &str) -> (r: Result<Statement, CassError>)
    ensures
        r is Ok <==> text_ok(query@),
        r is Err ==> r == Err::<Statement, CassError>(CassError::InvalidText),
        r is Ok ==> r->Ok_0@ == adhoc_view(query@, count_char(query@, '?')),
{
    let len = query.unicode_len();
    let mut count: usize = 0;
    let mut i: usize = 0;
    while i < len
        invariant
            i <= len,
            len == query@.len(),
            count <= i,
            count == count_char(query@.subrange(0, i as int), '?'),
        decreases len - i,
    {
        let c = query.get_char(i);
        proof {
            assert(query@.subrange(0, i + 1 as int).drop_last() =~= query@.subrange(0, i as int));
            assert(query@.subrange(0, i + 1 as int).last() == query@[i as int]);
        }
        if c == '?' {
            count += 1;
        }
        i += 1;
    }
    proof {
        assert(query@.subrange(0, query@.len() as int) =~= query@);
    }
    Statement::new(query, count as u64)
}

/// A position-addressed bind on a live statement succeeds exactly on the
/// positions below the declared parameter count: every position in range
/// takes an encodable value, and the position one past the end (or any
/// later one) is an addressing error. In particular, an ad-hoc statement
/// declared with `n` slots rejects position `n`.
pub proof fn lemma_bind_position_bounds(v: StmtView, index: u64, val: ValueView)
    requires
        v.live,
        value_ok(val),
    ensures
        index < v.slots.len() ==> bind_pos_check(v, index, val) is None,
        index >= v.slots.len() ==> bind_pos_check(v, index, val) == Some(
            CassError::IndexOutOfRange,
        ),
{
}

/// An ad-hoc statement declared with `n` parameter slots accepts an
/// encodable value at every position below `n` and rejects position `n`
/// itself (and every later one) as an addressing error.
pub proof fn lemma_adhoc_bind_bounds(query: Seq<char>, n: u64, index: u64, val: ValueView)
    requires
        value_ok(val),
    ensures
        index < n ==> bind_pos_check(adhoc_view(query, n as nat), index, val) is None,
        index >= n ==> bind_pos_check(adhoc_view(query, n as nat), index, val) == Some(
            CassError::IndexOutOfRange,
        ),
{
}

/// The parameter count is fixed at creation: no bind, successful or not,
/// grows or shrinks the slot set.
pub proof fn lemma_bind_preserves_slot_count(v: StmtView, index: u64, name: Seq<char>, val: ValueView)
    ensures
        bind_pos_step(v, index, val).slots.len() == v.slots.len(),
        bind_name_step(v, name, val).slots.len() == v.slots.len(),
{
}

/// A failed bind leaves the statement exactly as it was: slots already
/// bound are neither rolled back nor touched.
pub proof fn lemma_failed_bind_changes_nothing(v: StmtView, index: u64, name: Seq<char>, val: ValueView)
    ensures
        bind_pos_check(v, index, val) is Some ==> bind_pos_step(v, index, val) == v,
        bind_name_check(v, name, val) is Some ==> bind_name_step(v, name, val) == v,
{
}

/// Binding by name to an ad-hoc statement always fails with an addressing
/// error, whatever the name and the value, and leaves the statement
/// unchanged: only prepared-derived statements carry name metadata.
pub proof fn lemma_bind_by_name_adhoc_fails(v: StmtView, name: Seq<char>, val: ValueView)
    requires
        v.live,
        !v.from_prepared,
    ensures
        bind_name_check(v, name, val) == Some(CassError::NameNotFound),
        bind_name_step(v, name, val) == v,
{
}

/// Last write wins: binding the same slot twice leaves the second value in
/// the slot, exactly as if the first bind had never happened.
pub proof fn lemma_bind_last_write_wins(v: StmtView, index: u64, first: ValueView, second: ValueView)
    requires
        bind_pos_check(v, index, first) is None,
        bind_pos_check(v, index, second) is None,
    ensures
        bind_pos_step(bind_pos_step(v, index, first), index, second) == bind_pos_step(
            v,
            index,
            second,
        ),
{
    assert(bind_pos_step(bind_pos_step(v, index, first), index, second) =~= bind_pos_step(
        v,
        index,
        second,
    ));
}

/// Release is idempotent: releasing an already-released statement changes
/// nothing. Distinct statements own distinct resources, so a release never
/// touches any other live object.
pub proof fn lemma_release_idempotent(v: StmtView)
    ensures
        released_view(released_view(v)) == released_view(v),
{
    assert(released_view(released_view(v)) =~= released_view(v));
}

/// Setting the paging size to `PAGING_DISABLED` on a statement whose
/// paging size is still the default is the same as never having called
/// `set_paging_size`: paging stays disabled, the state is unchanged.
pub proof fn lemma_disable_paging_is_default(v: StmtView)
    requires
        v.paging_size == PAGING_DISABLED,
    ensures
        with_paging_size(v, PAGING_DISABLED) == v,
{
    assert(with_paging_size(v, PAGING_DISABLED) =~= v);
}

/// Round trip: after a successful bind, the addressed slot holds exactly
/// the bound value, so reading the slot back reproduces the value that
/// was bound.
pub proof fn lemma_bind_round_trip(v: StmtView, index: u64, val: ValueView)
    requires
        bind_pos_check(v, index, val) is None,
    ensures
        bind_pos_step(v, index, val).slots[index as int] == Some(val),
{
}

/// A successful name-addressed bind writes the value to every slot
/// carrying the name and leaves every other slot unchanged.
pub proof fn lemma_bind_by_name_writes_all(v: StmtView, name: Seq<char>, val: ValueView, i: int)
    requires
        bind_name_check(v, name, val) is None,
        0 <= i < v.slots.len(),
    ensures
        slot_named(v, i, name) ==> bind_name_step(v, name, val).slots[i] == Some(val),
        !slot_named(v, i, name) ==> bind_name_step(v, name, val).slots[i] == v.slots[i],
{
}

} // verus!
