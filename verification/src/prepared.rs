use vstd::prelude::*;

use crate::error::CassError;
use crate::statement::Statement;
use crate::value::{text_check, text_ok};

verus! {

/// The declared CQL data type of a prepared statement's parameter.
#[derive(Clone, Copy, Debug, PartialEq, Eq, Structural)]
pub enum DataType {
    Ascii,
    Bigint,
    Blob,
    Boolean,
    Counter,
    Date,
    Decimal,
    Double,
    Float,
    Inet,
    Int,
    ListType,
    MapType,
    SetType,
    Smallint,
    Text,
    Time,
    Timestamp,
    Timeuuid,
    Tinyint,
    TupleType,
    UdtType,
    Uuid,
    Varchar,
    Varint,
}

/// The mathematical state of a prepared template: its liveness and, for
/// each parameter slot, a name and a declared data type.
#[verifier::ext_equal]
pub ghost struct PreparedView {
    /// Whether the backing resource has not yet been released.
    pub live: bool,
    /// The parameter names, one per slot.
    pub names: Seq<Seq<char>>,
    /// The declared parameter types, one per slot.
    pub types: Seq<DataType>,
}

/// An immutable, server-validated query template. It is produced by the
/// execution collaborator's prepare round-trip, never built directly by
/// callers of the binding surface; `bind()` derives fresh, independent
/// statements from it. No operation mutates the template itself, so a
/// fully constructed template can be shared for reads.
pub struct PreparedStatement {
    live: bool,
    names: Vec<String>,
    types: Vec<DataType>,
}

impl View for PreparedStatement {
    type V = PreparedView;

    closed spec fn view(&self) -> PreparedView {
        PreparedView { live: self.live, names: self.names.deep_view(), types: self.types@ }
    }
}

/// Whether every parameter name in the prepare metadata is representable
/// in the resource layer's text encoding.
pub open spec fn metadata_names_ok(params: Seq<(String, DataType)>) -> bool {
    forall|i: int| 0 <= i < params.len() ==> text_ok(params[i].0@)
}

/// The state of a prepared template after its resource is released.
pub open spec fn released_prepared(p: PreparedView) -> PreparedView {
    PreparedView { live: false, ..p }
}

impl PreparedStatement {
    /// Builds the template that a successful prepare round-trip against
    /// the database yields: one name and one declared type per parameter
    /// slot, in slot order. This stands in for the execution
    /// collaborator's prepare operation, the only producer of templates;
    /// it fails only if a parameter name cannot be represented in the
    /// resource layer's text encoding, and leaves no resource allocated
    /// in that case.
    pub fn with_metadata(params: Vec<(String, DataType)>) -> (r: Result<
        PreparedStatement,
        CassError,
    >)
        ensures
            r is Ok <==> metadata_names_ok(params@),
            r is Err ==> r == Err::<PreparedStatement, CassError>(CassError::InvalidText),
            r is Ok ==> r->Ok_0@ == (PreparedView {
                live: true,
                names: Seq::new(params@.len() as nat, |i: int| params@[i].0@),
                types: Seq::new(params@.len() as nat, |i: int| params@[i].1),
            }),
    {
        let mut names: Vec<String> = Vec::new();
        let mut types: Vec<DataType> = Vec::new();
        let mut i: usize = 0;
        while i < params.len()
            invariant
                i <= params.len(),
                names@.len() == i,
                types@.len() == i,
                forall|j: int| 0 <= j < i ==> names@[j] == params@[j].0,
                forall|j: int| 0 <= j < i ==> types@[j] == params@[j].1,
                forall|j: int| 0 <= j < i ==> text_ok(params@[j].0@),
            decreases params.len() - i,
        {
            if !text_check(params[i].0.as_str()) {
                return Err(CassError::InvalidText);
            }
            names.push(params[i].0.clone());
            types.push(params[i].1);
            i += 1;
        }
        let p = PreparedStatement { live: true, names, types };
        proof {
            assert(p@.names =~= Seq::new(params@.len() as nat, |i: int| params@[i].0@));
            assert(p@.types =~= Seq::new(params@.len() as nat, |i: int| params@[i].1));
            assert(p@ =~= (PreparedView {
                live: true,
                names: Seq::new(params@.len() as nat, |i: int| params@[i].0@),
                types: Seq::new(params@.len() as nat, |i: int| params@[i].1),
            }));
        }
        Ok(p)
    }

    /// Creates a bound statement from this template: a fresh, independent
    /// statement that inherits the template's parameter count and per-slot
    /// names, with every slot unbound and every option at its default.
    /// Always succeeds on a live template, and never mutates the template;
    /// the statement does not keep the template alive, nor the reverse.
    pub fn bind(&self) -> (s: Statement)
        requires
            self@.live,
        ensures
            s@ == crate::statement::derived_view(self@.names),
    {
        let mut names: Vec<String> = Vec::new();
        let mut i: usize = 0;
        while i < self.names.len()
            invariant
                i <= self.names.len(),
                names@.len() == i,
                forall|j: int| 0 <= j < i ==> names@[j] == self.names@[j],
            decreases self.names.len() - i,
        {
            names.push(self.names[i].clone());
            i += 1;
        }
        proof {
            assert(names.deep_view() =~= self@.names);
        }
        Statement::derived_from(names)
    }

    /// The name of the parameter at the specified index.
    ///
    /// The metadata producer already refuses a name that is not
    /// representable as text, so a stored name never needs to be decoded
    /// and a decoding failure cannot arise here; only addressing and
    /// lifecycle errors can.
    pub fn parameter_name(&self, index: u64) -> (r: Result<&str, CassError>)
        ensures
            !self@.live ==> r == Err::<&str, CassError>(CassError::Released),
            self@.live && index >= self@.names.len() ==> r == Err::<&str, CassError>(
                CassError::IndexOutOfRange,
            ),
            self@.live && index < self@.names.len() ==> r is Ok && r->Ok_0@ == self@.names[
                index as int
            ],
    {
        if !self.live {
            return Err(CassError::Released);
        }
        if index >= self.names.len() as u64 {
            return Err(CassError::IndexOutOfRange);
        }
        Ok(self.names[index as usize].as_str())
    }

    /// The declared data type of the parameter at the specified index.
    ///
    /// The returned descriptor is a view borrowed from this template, not
    /// a second owner: it is only accessible while the template is, and
    /// must never be released on its own. Once the template has been
    /// released, the lookup reports `CassError::Released` instead.
    pub fn parameter_data_type(&self, index: u64) -> (r: Result<&DataType, CassError>)
        ensures
            !self@.live ==> r == Err::<&DataType, CassError>(CassError::Released),
            self@.live && index >= self@.types.len() ==> r == Err::<&DataType, CassError>(
                CassError::IndexOutOfRange,
            ),
            self@.live && index < self@.types.len() ==> r is Ok && *r->Ok_0 == self@.types[
                index as int
            ],
    {
        if !self.live {
            return Err(CassError::Released);
        }
        if index >= self.types.len() as u64 {
            return Err(CassError::IndexOutOfRange);
        }
        Ok(&self.types[index as usize])
    }

    /// The declared data type of the first parameter with the specified
    /// name. Slots sharing one name are assumed to share a compatible
    /// declared type; validating that is the server's concern, not this
    /// layer's. The descriptor is borrowed from this template, as with
    /// `parameter_data_type`.
    pub fn parameter_data_type_by_name(&self, name: &str) -> (r: Result<&DataType, CassError>)
        ensures
            !self@.live ==> r == Err::<&DataType, CassError>(CassError::Released),
            self@.live && !prepared_has_name(self@, name@) ==> r == Err::<&DataType, CassError>(
                CassError::NameNotFound,
            ),
            self@.live && prepared_has_name(self@, name@) ==> r is Ok && exists|i: int|
                0 <= i < self@.names.len() && self@.names[i] == name@ && (forall|j: int|
                    0 <= j < i ==> self@.names[j] != name@) && i < self@.types.len() && *r->Ok_0
                    == self@.types[i],
    {
        if !self.live {
            return Err(CassError::Released);
        }
        let name_owned: String = name.to_owned();
        let limit = if self.names.len() < self.types.len() {
            self.names.len()
        } else {
            self.types.len()
        };
        let mut i: usize = 0;
        while i < limit
            invariant
                i <= limit,
                limit <= self.names.len(),
                limit <= self.types.len(),
                limit == if self.names@.len() < self.types@.len() {
                    self.names@.len() as int
                } else {
                    self.types@.len() as int
                },
                self@.live,
                name_owned@ == name@,
                forall|j: int| 0 <= j < i ==> self@.names[j] != name@,
            decreases limit - i,
        {
            if self.names[i].eq(&name_owned) {
                proof {
                    assert(self@.names[i as int] == name@);
                }
                return Ok(&self.types[i]);
            }
            i += 1;
        }
        Err(CassError::NameNotFound)
    }

    /// The number of parameter slots the template declares.
    pub fn parameter_count(&self) -> (r: usize)
        ensures
            r == self@.names.len(),
    {
        self.names.len()
    }

    /// Whether the backing resource has not yet been released.
    pub fn is_live(&self) -> (r: bool)
        ensures
            r == self@.live,
    {
        self.live
    }

    /// Releases the backing resource. Safe to call unconditionally: the
    /// first call releases, every further call is a no-op, and no other
    /// live object is touched. Statements already derived from this
    /// template stay valid: they own independent resources.
    pub fn free(&mut self)
        ensures
            final(self)@ == released_prepared(old(self)@),
    {
        self.live = false;
        proof {
            assert(self@ =~= released_prepared(old(self)@));
        }
    }
}

/// Whether the template declares a parameter with the given name, within
/// the slots for which it also declares a type.
pub open spec fn prepared_has_name(p: PreparedView, name: Seq<char>) -> bool {
    exists|i: int| 0 <= i < p.names.len() && i < p.types.len() && p.names[i] == name
}

/// Releasing a prepared template is idempotent: a second release changes
/// nothing.
pub proof fn lemma_prepared_release_idempotent(p: PreparedView)
    ensures
        released_prepared(released_prepared(p)) == released_prepared(p),
{
    assert(released_prepared(released_prepared(p)) =~= released_prepared(p));
}

} // verus!
