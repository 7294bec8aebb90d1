//! Text commands and the callback payload codec.
//!
//! A callback payload is a slash-delimited path:
//! `/{list}/offset/{offset}/`, `/{list}/detail/{entry}/` or
//! `/{list}/progress/{entry}/{list_entry}/{progress}/`.
use vstd::prelude::*;
use crate::decimal::{decimal, numeric_field, parse_numeric, push_decimal, lemma_decimal_value};
use crate::text::{chars_of, push_text, same_text, slice_is};

verus! {

/// A command typed as free chat text.
#[derive(Debug, Clone, Copy, PartialEq, Eq, Structural)]
pub enum MessageCommand {
    List,
    Update,
    Version,
}

/// Input that is not in the grammar it was read against.
#[derive(Debug, Clone, Copy, PartialEq, Eq, Structural)]
pub struct ParseFailure;

pub open spec fn list_token() -> Seq<char> {
    seq!['l', 'i', 's', 't']
}

pub open spec fn update_token() -> Seq<char> {
    seq!['u', 'p', 'd', 'a', 't', 'e']
}

pub open spec fn version_token() -> Seq<char> {
    seq!['v', 'e', 'r', 's', 'i', 'o', 'n']
}

/// The command that chat text names: one of the exact, case-sensitive tokens.
pub open spec fn message_command_of(text: Seq<char>) -> Option<MessageCommand> {
    if text == list_token() {
        Some(MessageCommand::List)
    } else if text == update_token() {
        Some(MessageCommand::Update)
    } else if text == version_token() {
        Some(MessageCommand::Version)
    } else {
        None
    }
}

/// Reads chat text as a command.
pub fn parse_message_command(text: &str) -> (r: Result<MessageCommand, ParseFailure>)
    ensures
        match r {
            Ok(c) => message_command_of(text@) == Some(c),
            Err(_) => message_command_of(text@) is None,
        },
{
    proof {
        reveal_strlit("list");
        reveal_strlit("update");
        reveal_strlit("version");
        assert("list"@ =~= list_token());
        assert("update"@ =~= update_token());
        assert("version"@ =~= version_token());
    }
    if same_text(text, "list") {
        Ok(MessageCommand::List)
    } else if same_text(text, "update") {
        Ok(MessageCommand::Update)
    } else if same_text(text, "version") {
        Ok(MessageCommand::Version)
    } else {
        Err(ParseFailure)
    }
}

/// A continuation carried by an inline button.
#[derive(Debug, Clone, PartialEq, Eq)]
#[allow(inconsistent_fields)]
pub enum QueryCommand {
    /// Page `offset` of a subject's entry list.
    Offset { list_subject_id: i64, offset: i64 },
    /// Detail view of one entry within a list.
    Detail { list_subject_id: i64, entry_subject_id: i64 },
    /// Progress update on one list entry.
    Progress {
        list_subject_id: i64,
        entry_subject_id: String,
        list_entry_id: String,
        progress: i64,
    },
}

/// The mathematical value of a [`QueryCommand`].
#[allow(inconsistent_fields)]
pub enum QueryView {
    Offset { list_subject_id: i64, offset: i64 },
    Detail { list_subject_id: i64, entry_subject_id: i64 },
    Progress {
        list_subject_id: i64,
        entry_subject_id: Seq<char>,
        list_entry_id: Seq<char>,
        progress: i64,
    },
}

impl View for QueryCommand {
    type V = QueryView;

    open spec fn view(&self) -> QueryView {
        match self {
            QueryCommand::Offset { list_subject_id, offset } => QueryView::Offset {
                list_subject_id: *list_subject_id,
                offset: *offset,
            },
            QueryCommand::Detail { list_subject_id, entry_subject_id } => QueryView::Detail {
                list_subject_id: *list_subject_id,
                entry_subject_id: *entry_subject_id,
            },
            QueryCommand::Progress {
                list_subject_id,
                entry_subject_id,
                list_entry_id,
                progress,
            } => QueryView::Progress {
                list_subject_id: *list_subject_id,
                entry_subject_id: entry_subject_id@,
                list_entry_id: list_entry_id@,
                progress: *progress,
            },
        }
    }
}

/// An opaque identifier may be carried in a payload: it holds no slash.
pub open spec fn is_plain_field(s: Seq<char>) -> bool {
    forall|i: int| 0 <= i < s.len() ==> #[trigger] s[i] != '/'
}

impl QueryView {
    /// The list id, which every variant carries.
    pub open spec fn list_subject_id(self) -> i64 {
        match self {
            QueryView::Offset { list_subject_id, .. } => list_subject_id,
            QueryView::Detail { list_subject_id, .. } => list_subject_id,
            QueryView::Progress { list_subject_id, .. } => list_subject_id,
        }
    }

    /// Numeric fields are non-negative and opaque identifiers hold no slash.
    pub open spec fn valid(self) -> bool {
        match self {
            QueryView::Offset { list_subject_id, offset } => list_subject_id >= 0 && offset >= 0,
            QueryView::Detail { list_subject_id, entry_subject_id } => list_subject_id >= 0
                && entry_subject_id >= 0,
            QueryView::Progress { list_subject_id, entry_subject_id, list_entry_id, progress } => {
                &&& list_subject_id >= 0
                &&& progress >= 0
                &&& is_plain_field(entry_subject_id)
                &&& is_plain_field(list_entry_id)
            },
        }
    }
}

pub open spec fn slash() -> Seq<char> {
    seq!['/']
}

pub open spec fn offset_tag() -> Seq<char> {
    seq!['o', 'f', 'f', 's', 'e', 't']
}

pub open spec fn detail_tag() -> Seq<char> {
    seq!['d', 'e', 't', 'a', 'i', 'l']
}

pub open spec fn progress_tag() -> Seq<char> {
    seq!['p', 'r', 'o', 'g', 'r', 'e', 's', 's']
}

/// `/f0/f1/.../fn/`: each field followed by a slash, after a leading slash.
pub open spec fn path_of(fields: Seq<Seq<char>>) -> Seq<char>
    decreases fields.len(),
{
    if fields.len() == 0 {
        slash()
    } else {
        path_of(fields.drop_last()) + fields.last() + slash()
    }
}

/// The fields that a command writes into its payload, in order.
pub open spec fn payload_fields(c: QueryView) -> Seq<Seq<char>> {
    match c {
        QueryView::Offset { list_subject_id, offset } => seq![
            decimal(list_subject_id as nat),
            offset_tag(),
            decimal(offset as nat),
        ],
        QueryView::Detail { list_subject_id, entry_subject_id } => seq![
            decimal(list_subject_id as nat),
            detail_tag(),
            decimal(entry_subject_id as nat),
        ],
        QueryView::Progress { list_subject_id, entry_subject_id, list_entry_id, progress } => seq![
            decimal(list_subject_id as nat),
            progress_tag(),
            entry_subject_id,
            list_entry_id,
            decimal(progress as nat),
        ],
    }
}

/// The payload string of a command.
pub open spec fn encode_view(c: QueryView) -> Seq<char> {
    path_of(payload_fields(c))
}

/// The pieces of `s` between slashes, in order; `s` with `k` slashes has
/// `k + 1` pieces.
pub open spec fn segments(s: Seq<char>) -> Seq<Seq<char>>
    decreases s.len(),
{
    if s.len() == 0 {
        seq![Seq::<char>::empty()]
    } else {
        let prev = segments(s.drop_last());
        if s.last() == '/' {
            prev.push(Seq::<char>::empty())
        } else {
            prev.update(prev.len() - 1, prev.last().push(s.last()))
        }
    }
}

/// The command that a sequence of pieces spells, if any: an empty piece, the
/// list id, the variant's tag, its fields, and an empty piece.
pub open spec fn command_of_segments(g: Seq<Seq<char>>) -> Option<QueryView> {
    if g.len() < 5 || g[0].len() != 0 || g.last().len() != 0 || numeric_field(g[1]) is None {
        None
    } else {
        let list_subject_id = numeric_field(g[1])->0;
        if g.len() == 5 && g[2] == offset_tag() && numeric_field(g[3]) is Some {
            Some(QueryView::Offset { list_subject_id, offset: numeric_field(g[3])->0 })
        } else if g.len() == 5 && g[2] == detail_tag() && numeric_field(g[3]) is Some {
            Some(QueryView::Detail { list_subject_id, entry_subject_id: numeric_field(g[3])->0 })
        } else if g.len() == 7 && g[2] == progress_tag() && numeric_field(g[5]) is Some {
            Some(
                QueryView::Progress {
                    list_subject_id,
                    entry_subject_id: g[3],
                    list_entry_id: g[4],
                    progress: numeric_field(g[5])->0,
                },
            )
        } else {
            None
        }
    }
}

/// The command that a payload string spells, if it is in the grammar.
pub open spec fn decode_view(s: Seq<char>) -> Option<QueryView> {
    command_of_segments(segments(s))
}

proof fn lemma_segments_nonempty(s: Seq<char>)
    ensures
        segments(s).len() >= 1,
    decreases s.len(),
{
    if s.len() > 0 {
        lemma_segments_nonempty(s.drop_last());
    }
}

/// Appending slash-free text extends the last piece.
proof fn lemma_segments_plain(x: Seq<char>, y: Seq<char>)
    requires
        is_plain_field(y),
    ensures
        segments(x + y) == segments(x).update(
            segments(x).len() - 1,
            segments(x).last() + y,
        ),
    decreases y.len(),
{
    lemma_segments_nonempty(x);
    if y.len() == 0 {
        assert(x + y =~= x);
        assert(segments(x).last() + y =~= segments(x).last());
        assert(segments(x).update(segments(x).len() - 1, segments(x).last() + y) =~= segments(x));
    } else {
        let y0 = y.drop_last();
        assert(is_plain_field(y0)) by {
            assert forall|i: int| 0 <= i < y0.len() implies #[trigger] y0[i] != '/' by {
                assert(y0[i] == y[i]);
            }
        }
        lemma_segments_plain(x, y0);
        assert((x + y).drop_last() =~= x + y0);
        assert((x + y).last() == y[y.len() - 1]);
        assert(y[y.len() - 1] != '/');
        assert(segments(x).last() + y0 + seq![y.last()] =~= segments(x).last() + y);
        let p = segments(x + y0);
        assert(p.last() == segments(x).last() + y0);
        assert(p.last().push(y.last()) =~= segments(x).last() + y);
        assert(segments(x + y) =~= segments(x).update(
            segments(x).len() - 1,
            segments(x).last() + y,
        ));
    }
}

/// Appending a slash starts a new, empty piece.
proof fn lemma_segments_slash(x: Seq<char>)
    ensures
        segments(x + slash()) == segments(x).push(Seq::<char>::empty()),
{
    assert((x + slash()).drop_last() =~= x);
    assert((x + slash()).last() == '/');
}

/// The pieces of a path are its fields, between two empty pieces.
pub proof fn lemma_segments_of_path(fields: Seq<Seq<char>>)
    requires
        forall|k: int| 0 <= k < fields.len() ==> is_plain_field(#[trigger] fields[k]),
    ensures
        segments(path_of(fields)) == seq![Seq::<char>::empty()] + fields + seq![
            Seq::<char>::empty(),
        ],
    decreases fields.len(),
{
    let e = Seq::<char>::empty();
    if fields.len() == 0 {
        lemma_segments_slash(e);
        assert(e + slash() =~= slash());
        assert(segments(e) =~= seq![e]);
        assert(seq![e] + fields + seq![e] =~= seq![e].push(e));
    } else {
        let f0 = fields.drop_last();
        assert forall|k: int| 0 <= k < f0.len() implies is_plain_field(#[trigger] f0[k]) by {
            assert(f0[k] == fields[k]);
        }
        lemma_segments_of_path(f0);
        let p0 = path_of(f0);
        let last = fields.last();
        assert(is_plain_field(fields[fields.len() - 1]));
        lemma_segments_plain(p0, last);
        lemma_segments_slash(p0 + last);
        assert(segments(p0).last() + last =~= last);
        assert(segments(p0 + last) =~= seq![e] + fields);
        assert(path_of(fields) == p0 + last + slash());
        assert(segments(path_of(fields)) =~= seq![e] + fields + seq![e]);
    }
}

proof fn lemma_numeric_of_decimal(n: i64)
    requires
        n >= 0,
    ensures
        numeric_field(decimal(n as nat)) == Some(n),
        is_plain_field(decimal(n as nat)),
{
    lemma_decimal_value(n as nat);
    let d = decimal(n as nat);
    assert forall|i: int| 0 <= i < d.len() implies #[trigger] d[i] != '/' by {
        assert(crate::decimal::is_digit(d[i]));
    }
}

/// Decoding the payload of a valid command gives back that command.
pub proof fn lemma_round_trip(c: QueryView)
    requires
        c.valid(),
    ensures
        decode_view(encode_view(c)) == Some(c),
{
    let fields = payload_fields(c);
    let e = Seq::<char>::empty();
    assert(is_plain_field(offset_tag()));
    assert(is_plain_field(detail_tag()));
    assert(is_plain_field(progress_tag()));
    assert(offset_tag() != detail_tag()) by {
        assert(offset_tag()[0] != detail_tag()[0]);
    }
    match c {
        QueryView::Offset { list_subject_id, offset } => {
            lemma_numeric_of_decimal(list_subject_id);
            lemma_numeric_of_decimal(offset);
        },
        QueryView::Detail { list_subject_id, entry_subject_id } => {
            lemma_numeric_of_decimal(list_subject_id);
            lemma_numeric_of_decimal(entry_subject_id);
        },
        QueryView::Progress { list_subject_id, progress, .. } => {
            lemma_numeric_of_decimal(list_subject_id);
            lemma_numeric_of_decimal(progress);
        },
    }
    assert forall|k: int| 0 <= k < fields.len() implies is_plain_field(#[trigger] fields[k]) by {}
    lemma_segments_of_path(fields);
    let g = segments(encode_view(c));
    assert(g == seq![e] + fields + seq![e]);
    assert(g.len() == fields.len() + 2);
    assert(forall|k: int| 0 <= k < fields.len() ==> g[k + 1] == fields[k]);
    assert(g[0] == e);
    assert(g.last() == e);
}

/// The bounds `(from, to)` of each piece of `s` between slashes, in order.
fn segment_bounds(s: &Vec<char>) -> (r: Vec<(usize, usize)>)
    ensures
        r.len() == segments(s@).len(),
        forall|k: int|
            0 <= k < r.len() ==> {
                &&& (#[trigger] r@[k]).0 <= r@[k].1 <= s.len()
                &&& s@.subrange(r@[k].0 as int, r@[k].1 as int) == segments(s@)[k]
            },
{
    let mut r: Vec<(usize, usize)> = Vec::new();
    let mut start: usize = 0;
    let mut i: usize = 0;
    assert(s@.take(0) =~= Seq::<char>::empty());
    assert(s@.subrange(0, 0) =~= Seq::<char>::empty());
    while i < s.len()
        invariant
            start <= i <= s.len(),
            segments(s@.take(i as int)).len() == r.len() + 1,
            segments(s@.take(i as int))[r.len() as int] == s@.subrange(start as int, i as int),
            forall|k: int|
                0 <= k < r.len() ==> {
                    &&& (#[trigger] r@[k]).0 <= r@[k].1 <= s.len()
                    &&& s@.subrange(r@[k].0 as int, r@[k].1 as int) == segments(
                        s@.take(i as int),
                    )[k]
                },
        decreases s.len() - i,
    {
        let ghost prev = segments(s@.take(i as int));
        assert(s@.take(i + 1).drop_last() =~= s@.take(i as int));
        assert(s@.take(i + 1).last() == s@[i as int]);
        if s[i] == '/' {
            r.push((start, i));
            start = i + 1;
            assert(s@.subrange(start as int, i + 1) =~= Seq::<char>::empty());
        } else {
            assert(s@.subrange(start as int, i + 1) =~= s@.subrange(start as int, i as int).push(
                s@[i as int],
            ));
        }
        i = i + 1;
    }
    assert(s@.take(i as int) =~= s@);
    r.push((start, i));
    r
}

/// Reads a callback payload.
pub fn parse_query_command(payload: &str) -> (r: Result<QueryCommand, ParseFailure>)
    ensures
        match r {
            Ok(c) => decode_view(payload@) == Some(c@),
            Err(_) => decode_view(payload@) is None,
        },
{
    let cs = chars_of(payload);
    let b = segment_bounds(&cs);
    let ghost g = segments(payload@);
    let n = b.len();
    if n < 5 {
        return Err(ParseFailure);
    }
    if b[0].0 != b[0].1 || b[n - 1].0 != b[n - 1].1 {
        assert(g[0].len() == b@[0].1 - b@[0].0);
        assert(g.last().len() == b@[n - 1].1 - b@[n - 1].0);
        return Err(ParseFailure);
    }
    let list_subject_id = match parse_numeric(&cs, b[1].0, b[1].1) {
        Some(v) => v,
        None => {
            return Err(ParseFailure);
        },
    };
    proof {
        reveal_strlit("offset");
        reveal_strlit("detail");
        reveal_strlit("progress");
        assert("offset"@ =~= offset_tag());
        assert("detail"@ =~= detail_tag());
        assert("progress"@ =~= progress_tag());
    }
    if n == 5 && slice_is(&cs, b[2].0, b[2].1, "offset") {
        match parse_numeric(&cs, b[3].0, b[3].1) {
            Some(offset) => Ok(QueryCommand::Offset { list_subject_id, offset }),
            None => Err(ParseFailure),
        }
    } else if n == 5 && slice_is(&cs, b[2].0, b[2].1, "detail") {
        match parse_numeric(&cs, b[3].0, b[3].1) {
            Some(entry_subject_id) => Ok(QueryCommand::Detail { list_subject_id, entry_subject_id }),
            None => Err(ParseFailure),
        }
    } else if n == 7 && slice_is(&cs, b[2].0, b[2].1, "progress") {
        match parse_numeric(&cs, b[5].0, b[5].1) {
            Some(progress) => {
                let entry_subject_id = String::from_str(payload.substring_char(b[3].0, b[3].1));
                let list_entry_id = String::from_str(payload.substring_char(b[4].0, b[4].1));
                Ok(QueryCommand::Progress { list_subject_id, entry_subject_id, list_entry_id, progress })
            },
            None => Err(ParseFailure),
        }
    } else {
        Err(ParseFailure)
    }
}

/// The payload string of a command.
pub fn encode_query_command(c: &QueryCommand) -> (r: String)
    requires
        c@.valid(),
    ensures
        r@ == encode_view(c@),
{
    proof {
        reveal_strlit("/");
        reveal_strlit("/offset/");
        reveal_strlit("/detail/");
        reveal_strlit("/progress/");
    }
    let mut out = String::new();
    push_text(&mut out, "/");
    match c {
        QueryCommand::Offset { list_subject_id, offset } => {
            push_decimal(&mut out, *list_subject_id as u64);
            push_text(&mut out, "/offset/");
            push_decimal(&mut out, *offset as u64);
        },
        QueryCommand::Detail { list_subject_id, entry_subject_id } => {
            push_decimal(&mut out, *list_subject_id as u64);
            push_text(&mut out, "/detail/");
            push_decimal(&mut out, *entry_subject_id as u64);
        },
        QueryCommand::Progress { list_subject_id, entry_subject_id, list_entry_id, progress } => {
            push_decimal(&mut out, *list_subject_id as u64);
            push_text(&mut out, "/progress/");
            push_text(&mut out, entry_subject_id.as_str());
            push_text(&mut out, "/");
            push_text(&mut out, list_entry_id.as_str());
            push_text(&mut out, "/");
            push_decimal(&mut out, *progress as u64);
        },
    }
    push_text(&mut out, "/");
    let ghost f = payload_fields(c@);
    assert(out@ =~= encode_view(c@)) by {
        reveal_with_fuel(path_of, 6);
        assert(f.drop_last().drop_last().drop_last().len() == f.len() - 3);
    }
    out
}

/// No piece between slashes holds a slash.
proof fn lemma_segments_plain_pieces(s: Seq<char>)
    ensures
        forall|k: int|
            0 <= k < segments(s).len() ==> is_plain_field(#[trigger] segments(s)[k]),
    decreases s.len(),
{
    if s.len() > 0 {
        lemma_segments_plain_pieces(s.drop_last());
        lemma_segments_nonempty(s.drop_last());
        let prev = segments(s.drop_last());
        if s.last() != '/' {
            let l = prev.last().push(s.last());
            assert(is_plain_field(prev[prev.len() - 1]));
            assert forall|i: int| 0 <= i < l.len() implies #[trigger] l[i] != '/' by {
                if i < l.len() - 1 {
                    assert(l[i] == prev.last()[i]);
                }
            }
            assert forall|k: int| 0 <= k < segments(s).len() implies is_plain_field(
                #[trigger] segments(s)[k],
            ) by {
                if k < prev.len() - 1 {
                    assert(segments(s)[k] == prev[k]);
                }
            }
        } else {
            assert forall|k: int| 0 <= k < segments(s).len() implies is_plain_field(
                #[trigger] segments(s)[k],
            ) by {
                if k < prev.len() {
                    assert(segments(s)[k] == prev[k]);
                } else {
                    assert(segments(s)[k] =~= Seq::<char>::empty());
                }
            }
        }
    }
}

/// Whatever a payload decodes to is a valid command: decoding never yields
/// a negative number or an identifier with a slash in it.
pub proof fn lemma_decoded_valid(s: Seq<char>)
    ensures
        decode_view(s) matches Some(c) ==> c.valid(),
{
    lemma_segments_plain_pieces(s);
}

/// Text is a command exactly when it is one of the three tokens; anything
/// else, the empty text, padded or differently cased tokens included, is not.
pub proof fn lemma_only_tokens(text: Seq<char>)
    ensures
        message_command_of(text) is Some <==> (text == list_token() || text == update_token()
            || text == version_token()),
{
}

/// Payloads outside the grammar decode to nothing: a wrong number of pieces,
/// a missing leading or trailing slash, a list id or numeric field that is
/// not a number, or an unknown tag. What does decode is a valid command whose
/// fields are the payload's own pieces.
pub proof fn lemma_outside_grammar_fails(s: Seq<char>)
    ensures
        segments(s).len() != 5 && segments(s).len() != 7 ==> decode_view(s) is None,
        segments(s).len() >= 5 && (segments(s)[0].len() != 0 || segments(s).last().len() != 0)
            ==> decode_view(s) is None,
        segments(s).len() >= 5 && numeric_field(segments(s)[1]) is None ==> decode_view(s) is None,
        segments(s).len() >= 5 && segments(s)[2] != offset_tag() && segments(s)[2] != detail_tag()
            && segments(s)[2] != progress_tag() ==> decode_view(s) is None,
        decode_view(s) matches Some(c) ==> c.valid() && numeric_field(segments(s)[1]) == Some(
            c.list_subject_id(),
        ),
        decode_view(s) matches Some(QueryView::Offset { offset, .. }) ==> numeric_field(
            segments(s)[3],
        ) == Some(offset),
        decode_view(s) matches Some(QueryView::Detail { entry_subject_id, .. }) ==> numeric_field(
            segments(s)[3],
        ) == Some(entry_subject_id),
        decode_view(s) matches Some(
            QueryView::Progress { entry_subject_id, list_entry_id, progress, .. },
        ) ==> segments(s)[3] == entry_subject_id && segments(s)[4] == list_entry_id
            && numeric_field(segments(s)[5]) == Some(progress),
{
    lemma_decoded_valid(s);
}

} // verus!
