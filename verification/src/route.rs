//! The paths that lead to the signer.

use vstd::prelude::*;
use vstd::string::*;

verus! {

/// The method of every signing request.
pub const METHOD: &'static str = "POST";

/// The path of the entry point that names no resource.
pub const UNSCOPED_PATH: &'static str = "/aws/s3/sign";

/// What follows the path variables of the two scoped entry points.
pub const SIGN_SUFFIX: &'static str = "/v1/aws/s3/sign";

/// What precedes the prefix of the resource-scoped entry point.
pub const SIGNER_ROOT: &'static str = "/signer/";

/// What stands between prefix and tabular identifier.
pub const TABULAR_MARKER: &'static str = "/tabular-id/";

/// What the proofs below need to know of the four path literals: how long
/// they are, and where their slashes stand.
proof fn lemma_literals()
    ensures
        UNSCOPED_PATH@.len() == 12,
        SIGN_SUFFIX@.len() == 15,
        SIGN_SUFFIX@[0] == '/',
        SIGNER_ROOT@.len() == 8,
        SIGNER_ROOT@[7] == '/',
        TABULAR_MARKER@.len() == 12,
        TABULAR_MARKER@[0] == '/',
{
    reveal_strlit("/aws/s3/sign");
    reveal_strlit("/v1/aws/s3/sign");
    reveal_strlit("/signer/");
    reveal_strlit("/tabular-id/");
}

/// Whether `lit` stands in `text` at position `at`.
pub open spec fn stands_at(text: Seq<char>, at: int, lit: Seq<char>) -> bool {
    &&& 0 <= at
    &&& at + lit.len() <= text.len()
    &&& text.subrange(at, at + lit.len()) == lit
}

/// Tests whether `lit` stands in `text` at position `at`.
fn has_at(text: &str, at: usize, lit: &str) -> (r: bool)
    ensures
        r == stands_at(text@, at as int, lit@),
{
    let n: usize = text.unicode_len();
    let m: usize = lit.unicode_len();
    if at > n || m > n - at {
        return false;
    }
    let mut i: usize = 0;
    while i < m
        invariant
            n == text@.len(),
            m == lit@.len(),
            at + m <= n,
            i <= m,
            forall|j: int| 0 <= j < i ==> text@[at + j] == lit@[j],
        decreases m - i,
    {
        if text.get_char(at + i) != lit.get_char(i) {
            assert(text@.subrange(at as int, at + m)[i as int] != lit@[i as int]);
            return false;
        }
        i = i + 1;
    }
    assert(text@.subrange(at as int, at + m) =~= lit@);
    true
}

/// Tests whether `text` is `lit`, character for character.
fn is_text(text: &str, lit: &str) -> (r: bool)
    ensures
        r == (text@ == lit@),
{
    let same: bool = has_at(text, 0, lit) && text.unicode_len() == lit.unicode_len();
    proof {
        if same {
            assert(text@.subrange(0, lit@.len() as int) =~= text@);
        }
        if text@ == lit@ {
            assert(text@.subrange(0, lit@.len() as int) =~= lit@);
        }
    }
    same
}

/// A path variable: one or more characters, none of them a slash.
pub open spec fn is_segment(s: Seq<char>) -> bool {
    &&& s.len() > 0
    &&& forall|i: int| 0 <= i < s.len() ==> s[i] != '/'
}

/// An entry point together with the path variables that a request gave it.
#[derive(Debug, Clone, PartialEq, Eq)]
pub enum EntryPoint {
    /// `/aws/s3/sign`
    Unscoped,
    /// `/{prefix}/v1/aws/s3/sign`
    PrefixScoped { prefix: String },
    /// `/signer/{prefix}/tabular-id/{tabular_id}/v1/aws/s3/sign`
    ResourceScoped { prefix: String, tabular_id: String },
}

/// The mathematical value of an [`EntryPoint`].
pub enum Route {
    Unscoped,
    PrefixScoped { prefix: Seq<char> },
    ResourceScoped { prefix: Seq<char>, tabular_id: Seq<char> },
}

impl View for EntryPoint {
    type V = Route;

    open spec fn view(&self) -> Route {
        match self {
            EntryPoint::Unscoped => Route::Unscoped,
            EntryPoint::PrefixScoped { prefix } => Route::PrefixScoped { prefix: prefix@ },
            EntryPoint::ResourceScoped { prefix, tabular_id } => Route::ResourceScoped {
                prefix: prefix@,
                tabular_id: tabular_id@,
            },
        }
    }
}

impl Route {
    /// Every path variable is a segment.
    pub open spec fn well_formed(self) -> bool {
        match self {
            Route::Unscoped => true,
            Route::PrefixScoped { prefix } => is_segment(prefix),
            Route::ResourceScoped { prefix, tabular_id } => is_segment(prefix) && is_segment(
                tabular_id,
            ),
        }
    }

    /// The path that a request for this route is sent to.
    pub open spec fn path(self) -> Seq<char> {
        match self {
            Route::Unscoped => UNSCOPED_PATH@,
            Route::PrefixScoped { prefix } => seq!['/'] + prefix + SIGN_SUFFIX@,
            Route::ResourceScoped { prefix, tabular_id } => SIGNER_ROOT@ + prefix
                + TABULAR_MARKER@ + tabular_id + SIGN_SUFFIX@,
        }
    }
}

/// `path` is the path of `route`, and `route` is well formed.
pub open spec fn leads_to(path: Seq<char>, route: Route) -> bool {
    route.well_formed() && route.path() == path
}

/// The route that a path leads to, if it leads to one.
pub open spec fn route_of(path: Seq<char>) -> Option<Route> {
    if exists|route: Route| leads_to(path, route) {
        Some(choose|route: Route| leads_to(path, route))
    } else {
        None
    }
}

/// The route that a request reaches, if it reaches one: that of its path,
/// where its method is the one that signing requests have.
pub open spec fn entry_of(method: Seq<char>, path: Seq<char>) -> Option<Route> {
    if method == METHOD@ {
        route_of(path)
    } else {
        None
    }
}

/// Where the pieces of a prefix-scoped path stand.
proof fn lemma_prefix_scoped_shape(path: Seq<char>, prefix: Seq<char>)
    requires
        is_segment(prefix),
        path == (Route::PrefixScoped { prefix }).path(),
    ensures
        ({
            let k = prefix.len() as int;
            &&& path.len() == k + 16
            &&& path[0] == '/'
            &&& forall|i: int| 1 <= i < 1 + k ==> path[i] != '/'
            &&& path[1 + k] == '/'
            &&& path.subrange(1, 1 + k) == prefix
            &&& stands_at(path, 1 + k, SIGN_SUFFIX@)
        }),
{
    lemma_literals();
    let k = prefix.len() as int;
    assert forall|i: int| 1 <= i < 1 + k implies path[i] != '/' by {
        assert(path[i] == prefix[i - 1]);
    }
    assert(path.subrange(1, 1 + k) =~= prefix);
    assert(path.subrange(1 + k, 1 + k + 15) =~= SIGN_SUFFIX@);
    assert(path[1 + k] == SIGN_SUFFIX@[0]);
}

/// Where the pieces of a resource-scoped path stand.
proof fn lemma_resource_scoped_shape(path: Seq<char>, prefix: Seq<char>, tabular_id: Seq<char>)
    requires
        is_segment(prefix),
        is_segment(tabular_id),
        path == (Route::ResourceScoped { prefix, tabular_id }).path(),
    ensures
        ({
            let k = prefix.len() as int;
            let m = tabular_id.len() as int;
            &&& path.len() == k + m + 35
            &&& stands_at(path, 0, SIGNER_ROOT@)
            &&& forall|i: int| 8 <= i < 8 + k ==> path[i] != '/'
            &&& path[8 + k] == '/'
            &&& path.subrange(8, 8 + k) == prefix
            &&& stands_at(path, 8 + k, TABULAR_MARKER@)
            &&& forall|i: int| 20 + k <= i < 20 + k + m ==> path[i] != '/'
            &&& path[20 + k + m] == '/'
            &&& path.subrange(20 + k, 20 + k + m) == tabular_id
            &&& stands_at(path, 20 + k + m, SIGN_SUFFIX@)
        }),
{
    lemma_literals();
    let k = prefix.len() as int;
    let m = tabular_id.len() as int;
    assert(path.subrange(0, 8) =~= SIGNER_ROOT@);
    assert forall|i: int| 8 <= i < 8 + k implies path[i] != '/' by {
        assert(path[i] == prefix[i - 8]);
    }
    assert(path.subrange(8, 8 + k) =~= prefix);
    assert(path.subrange(8 + k, 8 + k + 12) =~= TABULAR_MARKER@);
    assert(path[8 + k] == TABULAR_MARKER@[0]);
    assert forall|i: int| 20 + k <= i < 20 + k + m implies path[i] != '/' by {
        assert(path[i] == tabular_id[i - 20 - k]);
    }
    assert(path.subrange(20 + k, 20 + k + m) =~= tabular_id);
    assert(path.subrange(20 + k + m, 20 + k + m + 15) =~= SIGN_SUFFIX@);
    assert(path[20 + k + m] == SIGN_SUFFIX@[0]);
}

/// A path leads to at most one route.
pub proof fn lemma_one_route_per_path(a: Route, b: Route)
    requires
        a.well_formed(),
        b.well_formed(),
        a.path() == b.path(),
    ensures
        a == b,
{
    lemma_literals();
    let path = a.path();
    match (a, b) {
        (Route::Unscoped, Route::Unscoped) => {},
        (Route::Unscoped, Route::PrefixScoped { prefix }) => {
            lemma_prefix_scoped_shape(path, prefix);
        },
        (Route::PrefixScoped { prefix }, Route::Unscoped) => {
            lemma_prefix_scoped_shape(path, prefix);
        },
        (Route::Unscoped, Route::ResourceScoped { prefix, tabular_id }) => {
            lemma_resource_scoped_shape(path, prefix, tabular_id);
        },
        (Route::ResourceScoped { prefix, tabular_id }, Route::Unscoped) => {
            lemma_resource_scoped_shape(path, prefix, tabular_id);
        },
        (Route::PrefixScoped { prefix: p }, Route::PrefixScoped { prefix: q }) => {
            lemma_prefix_scoped_shape(path, p);
            lemma_prefix_scoped_shape(path, q);
            assert(p.len() == q.len());
        },
        (Route::PrefixScoped { prefix: p }, Route::ResourceScoped { prefix, tabular_id }) => {
            lemma_prefix_scoped_shape(path, p);
            lemma_resource_scoped_shape(path, prefix, tabular_id);
            assert(path.subrange(0, 8)[7] == '/');
            assert(false);
        },
        (Route::ResourceScoped { prefix, tabular_id }, Route::PrefixScoped { prefix: p }) => {
            lemma_prefix_scoped_shape(path, p);
            lemma_resource_scoped_shape(path, prefix, tabular_id);
            assert(path.subrange(0, 8)[7] == '/');
            assert(false);
        },
        (
            Route::ResourceScoped { prefix: p, tabular_id: t },
            Route::ResourceScoped { prefix: q, tabular_id: u },
        ) => {
            lemma_resource_scoped_shape(path, p, t);
            lemma_resource_scoped_shape(path, q, u);
            assert(p.len() == q.len());
            assert(t.len() == u.len());
        },
    }
}

/// A well-formed route is the route of its own path.
pub proof fn lemma_route_of_path(route: Route)
    requires
        route.well_formed(),
    ensures
        route_of(route.path()) == Some(route),
{
    assert(leads_to(route.path(), route));
    let chosen = choose|other: Route| leads_to(route.path(), other);
    lemma_one_route_per_path(chosen, route);
}

/// `end` is the first position at or after `from` that holds a slash, or
/// the length of `text` where none does.
pub open spec fn segment_ends(text: Seq<char>, from: int, end: int) -> bool {
    &&& 0 <= from <= end <= text.len()
    &&& forall|i: int| from <= i < end ==> text[i] != '/'
    &&& end < text.len() ==> text[end] == '/'
}

/// Finds where the segment that begins at `from` ends.
fn segment_end(text: &str, from: usize) -> (end: usize)
    requires
        from <= text@.len(),
    ensures
        segment_ends(text@, from as int, end as int),
{
    let n: usize = text.unicode_len();
    let mut end: usize = from;
    while end < n && text.get_char(end) != '/'
        invariant
            n == text@.len(),
            from <= end <= n,
            forall|i: int| from <= i < end ==> text@[i] != '/',
        decreases n - end,
    {
        end = end + 1;
    }
    end
}

/// A path whose pieces stand where those of a prefix-scoped path stand is
/// one.
proof fn lemma_prefix_scoped_found(path: Seq<char>, end: int)
    requires
        path.len() > 0,
        path[0] == '/',
        1 < end,
        stands_at(path, end, SIGN_SUFFIX@),
        path.len() == end + 15,
    ensures
        path == (Route::PrefixScoped { prefix: path.subrange(1, end) }).path(),
{
    lemma_literals();
    let prefix = path.subrange(1, end);
    let suffix = path.subrange(end, end + 15);
    assert(path =~= seq!['/'] + prefix + suffix);
}

/// A path that does not begin with a slash, whose first segment is empty, or
/// whose first segment is not followed by the sign suffix and the end of the
/// path, is no prefix-scoped path.
proof fn lemma_prefix_scoped_missed(path: Seq<char>, end: int)
    requires
        path.len() > 0 && path[0] == '/' ==> segment_ends(path, 1, end),
        !{
            &&& path.len() > 0
            &&& path[0] == '/'
            &&& 1 < end
            &&& stands_at(path, end, SIGN_SUFFIX@)
            &&& path.len() == end + 15
        },
    ensures
        forall|prefix: Seq<char>| !#[trigger] leads_to(path, Route::PrefixScoped { prefix }),
{
    assert forall|prefix: Seq<char>| !#[trigger] leads_to(
        path,
        Route::PrefixScoped { prefix },
    ) by {
        if leads_to(path, Route::PrefixScoped { prefix }) {
            lemma_prefix_scoped_shape(path, prefix);
            let k: int = prefix.len() as int;
            assert(path[1 + k] == '/');
            assert(end == 1 + k);
        }
    }
}

/// Matches `/{prefix}/v1/aws/s3/sign`.
fn match_prefix_scoped(path: &str) -> (r: Option<EntryPoint>)
    ensures
        match r {
            Some(entry) => entry@ is PrefixScoped && leads_to(path@, entry@),
            None => forall|prefix: Seq<char>|
                !#[trigger] leads_to(path@, Route::PrefixScoped { prefix }),
        },
{
    proof {
        lemma_literals();
    }
    let n: usize = path.unicode_len();
    if n == 0 || path.get_char(0) != '/' {
        proof {
            lemma_prefix_scoped_missed(path@, 0);
        }
        return None;
    }
    let end: usize = segment_end(path, 1);
    if end == 1 || !has_at(path, end, SIGN_SUFFIX) || n - end != SIGN_SUFFIX.unicode_len() {
        proof {
            lemma_prefix_scoped_missed(path@, end as int);
        }
        return None;
    }
    let prefix: String = path.substring_char(1, end).to_owned();
    proof {
        lemma_prefix_scoped_found(path@, end as int);
    }
    Some(EntryPoint::PrefixScoped { prefix })
}

/// A path whose pieces stand where those of a resource-scoped path stand is
/// one.
proof fn lemma_resource_scoped_found(path: Seq<char>, end: int, id_end: int)
    requires
        stands_at(path, 0, SIGNER_ROOT@),
        8 < end,
        stands_at(path, end, TABULAR_MARKER@),
        end + 12 < id_end,
        stands_at(path, id_end, SIGN_SUFFIX@),
        path.len() == id_end + 15,
    ensures
        path == (Route::ResourceScoped {
            prefix: path.subrange(8, end),
            tabular_id: path.subrange(end + 12, id_end),
        }).path(),
{
    lemma_literals();
    let root = path.subrange(0, 8);
    let prefix = path.subrange(8, end);
    let marker = path.subrange(end, end + 12);
    let tabular_id = path.subrange(end + 12, id_end);
    let suffix = path.subrange(id_end, id_end + 15);
    assert(path.subrange(0, end) =~= root + prefix);
    assert(path.subrange(0, end + 12) =~= path.subrange(0, end) + marker);
    assert(path.subrange(0, id_end) =~= path.subrange(0, end + 12) + tabular_id);
    assert(path =~= path.subrange(0, id_end) + suffix);
}

/// A path that does not begin as a resource-scoped path begins is none.
proof fn lemma_resource_scoped_missed_root(path: Seq<char>)
    requires
        !stands_at(path, 0, SIGNER_ROOT@),
    ensures
        forall|prefix: Seq<char>, tabular_id: Seq<char>|
            !#[trigger] leads_to(path, Route::ResourceScoped { prefix, tabular_id }),
{
    assert forall|prefix: Seq<char>, tabular_id: Seq<char>|
        !#[trigger] leads_to(path, Route::ResourceScoped { prefix, tabular_id }) by {
        if leads_to(path, Route::ResourceScoped { prefix, tabular_id }) {
            lemma_resource_scoped_shape(path, prefix, tabular_id);
        }
    }
}

/// A path whose second segment is empty, or is not followed by the tabular
/// marker, is no resource-scoped path.
proof fn lemma_resource_scoped_missed_prefix(path: Seq<char>, end: int)
    requires
        segment_ends(path, 8, end),
        end == 8 || !stands_at(path, end, TABULAR_MARKER@),
    ensures
        forall|prefix: Seq<char>, tabular_id: Seq<char>|
            !#[trigger] leads_to(path, Route::ResourceScoped { prefix, tabular_id }),
{
    assert forall|prefix: Seq<char>, tabular_id: Seq<char>|
        !#[trigger] leads_to(path, Route::ResourceScoped { prefix, tabular_id }) by {
        if leads_to(path, Route::ResourceScoped { prefix, tabular_id }) {
            lemma_resource_scoped_shape(path, prefix, tabular_id);
            let k: int = prefix.len() as int;
            assert(path[8 + k] == '/');
            assert(end == 8 + k);
        }
    }
}

/// A path whose fourth segment is empty, or is not followed by the sign
/// suffix and the end of the path, is no resource-scoped path.
proof fn lemma_resource_scoped_missed_id(path: Seq<char>, end: int, id_end: int)
    requires
        segment_ends(path, 8, end),
        stands_at(path, end, TABULAR_MARKER@),
        segment_ends(path, end + 12, id_end),
        id_end == end + 12 || !stands_at(path, id_end, SIGN_SUFFIX@) || path.len() != id_end + 15,
    ensures
        forall|prefix: Seq<char>, tabular_id: Seq<char>|
            !#[trigger] leads_to(path, Route::ResourceScoped { prefix, tabular_id }),
{
    assert forall|prefix: Seq<char>, tabular_id: Seq<char>|
        !#[trigger] leads_to(path, Route::ResourceScoped { prefix, tabular_id }) by {
        if leads_to(path, Route::ResourceScoped { prefix, tabular_id }) {
            lemma_resource_scoped_shape(path, prefix, tabular_id);
            let k: int = prefix.len() as int;
            let m: int = tabular_id.len() as int;
            assert(path[8 + k] == '/');
            assert(end == 8 + k);
            assert(path[20 + k + m] == '/');
            assert(id_end == 20 + k + m);
        }
    }
}

/// Matches `/signer/{prefix}/tabular-id/{tabular_id}/v1/aws/s3/sign`.
fn match_resource_scoped(path: &str) -> (r: Option<EntryPoint>)
    ensures
        match r {
            Some(entry) => entry@ is ResourceScoped && leads_to(path@, entry@),
            None => forall|prefix: Seq<char>, tabular_id: Seq<char>|
                !#[trigger] leads_to(path@, Route::ResourceScoped { prefix, tabular_id }),
        },
{
    proof {
        lemma_literals();
    }
    let n: usize = path.unicode_len();
    if !has_at(path, 0, SIGNER_ROOT) {
        proof {
            lemma_resource_scoped_missed_root(path@);
        }
        return None;
    }
    let start: usize = SIGNER_ROOT.unicode_len();
    let end: usize = segment_end(path, start);
    if end == start || !has_at(path, end, TABULAR_MARKER) {
        proof {
            lemma_resource_scoped_missed_prefix(path@, end as int);
        }
        return None;
    }
    let id_start: usize = end + TABULAR_MARKER.unicode_len();
    let id_end: usize = segment_end(path, id_start);
    if id_end == id_start || !has_at(path, id_end, SIGN_SUFFIX) || n - id_end
        != SIGN_SUFFIX.unicode_len() {
        proof {
            lemma_resource_scoped_missed_id(path@, end as int, id_end as int);
        }
        return None;
    }
    let prefix: String = path.substring_char(start, end).to_owned();
    let tabular_id: String = path.substring_char(id_start, id_end).to_owned();
    proof {
        lemma_resource_scoped_found(path@, end as int, id_end as int);
    }
    Some(EntryPoint::ResourceScoped { prefix, tabular_id })
}

/// Finds the entry point that a request reaches, and the path variables it
/// gives.
///
/// Method and path are matched as they stand: the method letter for letter,
/// a path variable as the run of one or more characters between two slashes.
pub fn resolve(method: &str, path: &str) -> (r: Option<EntryPoint>)
    ensures
        match r {
            Some(entry) => entry_of(method@, path@) == Some(entry@),
            None => entry_of(method@, path@) is None,
        },
{
    if !is_text(method, METHOD) {
        return None;
    }
    let found: Option<EntryPoint> = if is_text(path, UNSCOPED_PATH) {
        Some(EntryPoint::Unscoped)
    } else {
        match match_prefix_scoped(path) {
            Some(entry) => Some(entry),
            None => match_resource_scoped(path),
        }
    };
    proof {
        if found is Some {
            lemma_route_of_path(found->0@);
        } else {
            assert forall|route: Route| !leads_to(path@, route) by {
                match route {
                    Route::Unscoped => {},
                    Route::PrefixScoped { prefix } => {},
                    Route::ResourceScoped { prefix, tabular_id } => {},
                }
            }
        }
    }
    found
}

} // verus!
