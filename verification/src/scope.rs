//! What a signing request is scoped to.

use vstd::prelude::*;

verus! {

/// Names the warehouse a request is scoped to. The name is opaque: it is
/// carried to the signing backend as it was given.
#[derive(Debug, Clone, PartialEq, Eq, Hash)]
pub struct Prefix(pub String);

impl View for Prefix {
    type V = Seq<char>;

    open spec fn view(&self) -> Seq<char> {
        self.0@
    }
}

/// The 128-bit identifier of one table or view.
#[derive(Debug, Clone, Copy, PartialEq, Eq, Hash)]
pub struct TabularId(pub u128);

/// The value that the `uuid` crate reads from a text, big end first, or
/// `None` where it takes the text for no UUID.
pub uninterp spec fn uuid_of_text(text: Seq<char>) -> Option<u128>;

/// Calls `uuid::Uuid::try_parse` and, where it accepts the text, takes the
/// identifier's sixteen bytes as one number with `Uuid::as_u128`.
///
/// Nothing is proved of the parser. The contract only gives its result a
/// name: the parser reads nothing but the text, so one text always yields the
/// same answer.
#[verifier::external_body]
fn parse_uuid(text: &str) -> (r: Option<u128>)
    ensures
        r == uuid_of_text(text@),
{
    match uuid::Uuid::try_parse(text) {
        Ok(id) => Some(id.as_u128()),
        Err(_) => None,
    }
}

impl TabularId {
    /// The identifier that a text stands for, if it stands for one.
    pub open spec fn of_text(text: Seq<char>) -> Option<TabularId> {
        match uuid_of_text(text) {
            Some(value) => Some(TabularId(value)),
            None => None,
        }
    }

    /// Reads a tabular identifier from its textual form.
    pub fn parse(text: &str) -> (r: Option<TabularId>)
        ensures
            r == TabularId::of_text(text@),
    {
        match parse_uuid(text) {
            Some(value) => Some(TabularId(value)),
            None => None,
        }
    }
}

/// The catalog resource a signing request is limited to.
///
/// A tabular identifier never stands without the prefix of the warehouse
/// that holds the table: there is no variant for it.
#[derive(Debug, Clone, PartialEq, Eq, Hash)]
pub enum Scope {
    /// The request names no resource.
    Unscoped,
    /// The request is limited to one warehouse.
    Warehouse { prefix: Prefix },
    /// The request is limited to one table or view of a warehouse.
    Tabular { prefix: Prefix, tabular_id: TabularId },
}

/// The mathematical value of a [`Scope`].
pub enum ScopeView {
    Unscoped,
    Warehouse { prefix: Seq<char> },
    Tabular { prefix: Seq<char>, tabular_id: TabularId },
}

impl ScopeView {
    /// The warehouse prefix of the scope, if it has one.
    pub open spec fn prefix(self) -> Option<Seq<char>> {
        match self {
            ScopeView::Unscoped => None,
            ScopeView::Warehouse { prefix } => Some(prefix),
            ScopeView::Tabular { prefix, .. } => Some(prefix),
        }
    }

    /// The tabular identifier of the scope, if it has one.
    pub open spec fn tabular_id(self) -> Option<TabularId> {
        match self {
            ScopeView::Unscoped => None,
            ScopeView::Warehouse { .. } => None,
            ScopeView::Tabular { tabular_id, .. } => Some(tabular_id),
        }
    }
}

impl View for Scope {
    type V = ScopeView;

    open spec fn view(&self) -> ScopeView {
        match self {
            Scope::Unscoped => ScopeView::Unscoped,
            Scope::Warehouse { prefix } => ScopeView::Warehouse { prefix: prefix@ },
            Scope::Tabular { prefix, tabular_id } => ScopeView::Tabular {
                prefix: prefix@,
                tabular_id: *tabular_id,
            },
        }
    }
}

/// The value of an optional prefix.
pub open spec fn prefix_view(prefix: Option<Prefix>) -> Option<Seq<char>> {
    match prefix {
        Some(p) => Some(p@),
        None => None,
    }
}

impl Scope {
    /// Splits the scope into the two optional values that a signing backend
    /// takes.
    pub fn into_parts(self) -> (parts: (Option<Prefix>, Option<TabularId>))
        ensures
            prefix_view(parts.0) == self@.prefix(),
            parts.1 == self@.tabular_id(),
            parts.1 is Some ==> parts.0 is Some,
    {
        match self {
            Scope::Unscoped => (None, None),
            Scope::Warehouse { prefix } => (Some(prefix), None),
            Scope::Tabular { prefix, tabular_id } => (Some(prefix), Some(tabular_id)),
        }
    }
}

/// A scope that names a table or view also names its warehouse.
pub proof fn lemma_tabular_id_implies_prefix(scope: ScopeView)
    ensures
        scope.tabular_id() is Some ==> scope.prefix() is Some,
{
}

} // verus!
