use vstd::prelude::*;
use vstd::string::*;
use crate::error::{ToolError, ToolErrorKind};

verus! {

/// The character placed between namespace segments in the canonical form.
pub open spec fn url_separator() -> char {
    '\u{1f}'
}

/// The segments joined by the separator, in order.
pub open spec fn join_segments(segs: Seq<Seq<char>>) -> Seq<char>
    decreases segs.len(),
{
    if segs.len() == 0 {
        Seq::empty()
    } else if segs.len() == 1 {
        segs[0]
    } else {
        join_segments(segs.drop_last()) + seq![url_separator()] + segs.last()
    }
}

/// A list of segments is a namespace when it is non-empty and no segment is empty.
pub open spec fn valid_segments(segs: Seq<Seq<char>>) -> bool {
    segs.len() > 0 && forall|i: int| 0 <= i < segs.len() ==> #[trigger] segs[i].len() > 0
}

pub open spec fn string_views(v: Seq<String>) -> Seq<Seq<char>> {
    v.map_values(|s: String| s@)
}

/// An ordered, non-empty sequence of non-empty name segments.
#[derive(Debug, Clone)]
pub struct NamespaceIdent {
    segments: Vec<String>,
}

impl View for NamespaceIdent {
    type V = Seq<Seq<char>>;

    closed spec fn view(&self) -> Seq<Seq<char>> {
        string_views(self.segments@)
    }
}

impl NamespaceIdent {
    pub open spec fn wf(&self) -> bool {
        valid_segments(self@)
    }

    /// Builds an identifier from its segments; fails on an empty list or an
    /// empty segment.
    pub fn from_vec(names: Vec<String>) -> (r: Result<NamespaceIdent, ToolError>)
        ensures
            r is Ok <==> valid_segments(string_views(names@)),
            r is Ok ==> r->Ok_0@ == string_views(names@) && r->Ok_0.wf(),
            r is Err ==> r->Err_0.kind == ToolErrorKind::InvalidArgument,
    {
        if !segments_valid(&names) {
            return Err(ToolError::new(
                ToolErrorKind::InvalidArgument,
                "invalid namespace",
                "Namespace identifier can't be empty!".to_string(),
            ));
        }
        Ok(NamespaceIdent { segments: names })
    }

    /// The segments, in order.
    pub fn segments(&self) -> (r: &Vec<String>)
        ensures
            string_views(r@) == self@,
    {
        &self.segments
    }

    /// The canonical string form: the segments joined by the unit separator.
    pub fn to_url_string(&self) -> (r: String)
        requires
            self.wf(),
        ensures
            r@ == join_segments(self@),
    {
        join_url(&self.segments)
    }
}

/// Whether the list is non-empty and holds no empty segment.
pub fn segments_valid(names: &Vec<String>) -> (r: bool)
    ensures
        r == valid_segments(string_views(names@)),
{
    if names.len() == 0 {
        return false;
    }
    let mut i: usize = 0;
    while i < names.len()
        invariant
            0 <= i <= names.len(),
            forall|j: int| 0 <= j < i ==> #[trigger] names@[j]@.len() > 0,
        decreases names.len() - i,
    {
        if names[i].as_str().is_empty() {
            assert(string_views(names@)[i as int].len() == 0);
            return false;
        }
        i = i + 1;
    }
    true
}

/// The segments joined by the unit separator.
pub fn join_url(segs: &Vec<String>) -> (r: String)
    requires
        segs.len() > 0,
    ensures
        r@ == join_segments(string_views(segs@)),
{
    let ghost v = string_views(segs@);
    let mut out = segs[0].clone();
    let mut i: usize = 1;
    proof {
        assert(v.take(1) =~= seq![v[0]]);
    }
    while i < segs.len()
        invariant
            v == string_views(segs@),
            1 <= i <= segs.len(),
            out@ == join_segments(v.take(i as int)),
        decreases segs.len() - i,
    {
        proof {
            reveal_strlit("\u{1f}");
        }
        out.append("\u{1f}");
        out.append(segs[i].as_str());
        proof {
            assert(v.take(i + 1).drop_last() =~= v.take(i as int));
        }
        i = i + 1;
    }
    proof {
        assert(v.take(i as int) =~= v);
    }
    out
}

/// The segments that one raw namespace string stands for: the whole input is
/// a single segment.
pub open spec fn parsed_segments(raw: Seq<char>) -> Seq<Seq<char>> {
    seq![raw]
}

/// Parses the namespace parameter of a tool call. The whole input is one
/// segment; an empty input is an invalid argument.
pub fn parse_namespace(raw: String) -> (r: Result<NamespaceIdent, ToolError>)
    ensures
        r is Ok <==> raw@.len() > 0,
        r is Ok ==> r->Ok_0@ == parsed_segments(raw@) && r->Ok_0.wf(),
        r is Err ==> r->Err_0.kind == ToolErrorKind::InvalidArgument,
{
    let ghost raw_view = raw@;
    let names = vec![raw];
    assert(string_views(names@) =~= parsed_segments(raw_view));
    assert(parsed_segments(raw_view)[0] == raw_view);
    NamespaceIdent::from_vec(names)
}

/// Every non-empty namespace string parses, and the canonical form of what it
/// parses to is the string itself.
pub proof fn parse_namespace_round_trip(raw: Seq<char>)
    requires
        raw.len() > 0,
    ensures
        valid_segments(parsed_segments(raw)),
        join_segments(parsed_segments(raw)) == raw,
{
    assert(parsed_segments(raw)[0] == raw);
}

/// A namespace plus a table name.
#[derive(Debug, Clone)]
pub struct TableIdent {
    namespace: NamespaceIdent,
    name: String,
}

impl TableIdent {
    pub closed spec fn namespace_view(&self) -> NamespaceIdent {
        self.namespace
    }

    pub closed spec fn name_view(&self) -> Seq<char> {
        self.name@
    }

    pub open spec fn wf(&self) -> bool {
        self.namespace_view().wf() && self.name_view().len() > 0
    }

    /// Builds a table identifier; fails when the name is empty.
    pub fn new(namespace: NamespaceIdent, name: String) -> (r: Result<TableIdent, ToolError>)
        requires
            namespace.wf(),
        ensures
            r is Ok <==> name@.len() > 0,
            r is Ok ==> r->Ok_0.namespace_view() == namespace && r->Ok_0.name_view() == name@
                && r->Ok_0.wf(),
            r is Err ==> r->Err_0.kind == ToolErrorKind::InvalidArgument,
    {
        if name.as_str().is_empty() {
            return Err(ToolError::new(
                ToolErrorKind::InvalidArgument,
                "invalid table name",
                "Table name can't be empty!".to_string(),
            ));
        }
        Ok(TableIdent { namespace, name })
    }

    pub fn namespace(&self) -> (r: &NamespaceIdent)
        ensures
            *r == self.namespace_view(),
    {
        &self.namespace
    }

    pub fn name(&self) -> (r: &String)
        ensures
            r@ == self.name_view(),
    {
        &self.name
    }
}

} // verus!
