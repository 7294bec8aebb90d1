//! Responses: text, markup mode and inline keyboards built from remote data.
use vstd::prelude::*;
use crate::command::{
    decode_view, detail_tag, encode_query_command, encode_view, is_plain_field, lemma_segments_of_path,
    offset_tag, path_of, segments, QueryCommand, QueryView,
};
use crate::text::push_text;
use crate::decimal::{decimal, is_digit, lemma_decimal_value, numeric_field, push_decimal};

verus! {

/// A keyboard button: a label and, for a button that calls back, its payload.
#[derive(Debug, Clone, PartialEq, Eq)]
pub struct InlineButton {
    pub label: String,
    pub callback_data: Option<String>,
}

pub struct ButtonView {
    pub label: Seq<char>,
    pub callback_data: Option<Seq<char>>,
}

impl View for InlineButton {
    type V = ButtonView;

    open spec fn view(&self) -> ButtonView {
        ButtonView {
            label: self.label@,
            callback_data: match self.callback_data {
                Some(d) => Some(d@),
                None => None,
            },
        }
    }
}

/// A message body to send or to put in place of an existing one.
#[derive(Debug, Clone, PartialEq, Eq)]
pub struct Response {
    pub text: String,
    /// Whether the text is rich (HTML) markup rather than plain text.
    pub rich: bool,
    pub keyboard: Option<Vec<Vec<InlineButton>>>,
}

pub struct ResponseView {
    pub text: Seq<char>,
    pub rich: bool,
    pub keyboard: Option<Seq<Seq<ButtonView>>>,
}

pub open spec fn row_view(row: Vec<InlineButton>) -> Seq<ButtonView> {
    row@.map_values(|b: InlineButton| b@)
}

pub open spec fn keyboard_view(k: Vec<Vec<InlineButton>>) -> Seq<Seq<ButtonView>> {
    k@.map_values(|row: Vec<InlineButton>| row_view(row))
}

impl View for Response {
    type V = ResponseView;

    open spec fn view(&self) -> ResponseView {
        ResponseView {
            text: self.text@,
            rich: self.rich,
            keyboard: match self.keyboard {
                Some(k) => Some(keyboard_view(k)),
                None => None,
            },
        }
    }
}

/// One entry of a user's list, as the remote service reports it.
#[derive(Debug, Clone, PartialEq, Eq)]
pub struct ListEntry {
    pub entry_subject_id: i64,
    pub title: String,
    pub progress: i64,
}

pub struct ListEntryView {
    pub entry_subject_id: i64,
    pub title: Seq<char>,
    pub progress: i64,
}

impl View for ListEntry {
    type V = ListEntryView;

    open spec fn view(&self) -> ListEntryView {
        ListEntryView {
            entry_subject_id: self.entry_subject_id,
            title: self.title@,
            progress: self.progress,
        }
    }
}

/// One page of a list, with the offsets of the pages around it.
#[derive(Debug, Clone, PartialEq, Eq)]
pub struct EntryPage {
    pub prev: Option<i64>,
    pub next: Option<i64>,
    pub entries: Vec<ListEntry>,
}

/// One list entry in full.
#[derive(Debug, Clone, PartialEq, Eq)]
pub struct EntryDetail {
    pub entry_subject_id: String,
    pub list_entry_id: String,
    pub title: String,
    pub progress: i64,
    pub episode_count: Option<i64>,
}

pub open spec fn button(label: Seq<char>, c: QueryView) -> ButtonView {
    ButtonView { label, callback_data: Some(encode_view(c)) }
}

pub open spec fn entry_line(e: ListEntryView) -> Seq<char> {
    "<b>"@ + e.title + "</b> "@ + decimal(e.progress as nat) + "\n"@
}

/// The text of a list page: one line per entry.
pub open spec fn list_text(es: Seq<ListEntryView>) -> Seq<char>
    decreases es.len(),
{
    if es.len() == 0 {
        Seq::empty()
    } else {
        list_text(es.drop_last()) + entry_line(es.last())
    }
}

/// One row per entry, with a button that opens its detail view.
pub open spec fn entry_rows(list_subject_id: i64, es: Seq<ListEntryView>) -> Seq<Seq<ButtonView>> {
    es.map_values(
        |e: ListEntryView|
            seq![
                button(
                    e.title,
                    QueryView::Detail { list_subject_id, entry_subject_id: e.entry_subject_id },
                ),
            ],
    )
}

pub open spec fn page_button(list_subject_id: i64, label: Seq<char>, o: Option<i64>) -> Seq<
    ButtonView,
> {
    match o {
        Some(offset) => seq![button(label, QueryView::Offset { list_subject_id, offset })],
        None => Seq::empty(),
    }
}

/// The row that moves to the previous and next pages, where they exist.
pub open spec fn navigation_row(list_subject_id: i64, prev: Option<i64>, next: Option<i64>) -> Seq<
    ButtonView,
> {
    page_button(list_subject_id, "prev"@, prev) + page_button(list_subject_id, "next"@, next)
}

/// A page is shown only where every id and offset in it is non-negative.
pub open spec fn page_ok(p: EntryPage) -> bool {
    &&& (p.prev matches Some(o) ==> o >= 0)
    &&& (p.next matches Some(o) ==> o >= 0)
    &&& forall|i: int|
        0 <= i < p.entries.len() ==> (#[trigger] p.entries@[i]).entry_subject_id >= 0
            && p.entries@[i].progress >= 0
}

/// The row that reloads the first page, shown where a page offers no other
/// button.
pub open spec fn reload_row(list_subject_id: i64) -> Seq<ButtonView> {
    seq![button("reload"@, QueryView::Offset { list_subject_id, offset: 0 })]
}

/// The response that shows a page of the list `list_subject_id`: the entry
/// rows, then the navigation row where it has a button; a page with neither
/// gets the reload row, so the keyboard is never empty.
pub open spec fn list_response_view(list_subject_id: i64, p: EntryPage) -> ResponseView {
    let es = p.entries@.map_values(|e: ListEntry| e@);
    let nav = navigation_row(list_subject_id, p.prev, p.next);
    let rows = if nav.len() == 0 {
        entry_rows(list_subject_id, es)
    } else {
        entry_rows(list_subject_id, es).push(nav)
    };
    ResponseView {
        text: list_text(es),
        rich: true,
        keyboard: Some(if rows.len() == 0 { seq![reload_row(list_subject_id)] } else { rows }),
    }
}

/// A button that calls back with the payload of `c`.
pub fn callback_button(label: String, c: &QueryCommand) -> (r: InlineButton)
    requires
        c@.valid(),
    ensures
        r@ == button(label@, c@),
{
    InlineButton { label, callback_data: Some(encode_query_command(c)) }
}

/// Whether every id and offset in a page is non-negative.
pub fn page_is_showable(p: &EntryPage) -> (r: bool)
    ensures
        r == page_ok(*p),
{
    if let Some(o) = p.prev {
        if o < 0 {
            return false;
        }
    }
    if let Some(o) = p.next {
        if o < 0 {
            return false;
        }
    }
    let mut i: usize = 0;
    while i < p.entries.len()
        invariant
            i <= p.entries.len(),
            forall|j: int|
                0 <= j < i ==> (#[trigger] p.entries@[j]).entry_subject_id >= 0
                    && p.entries@[j].progress >= 0,
        decreases p.entries.len() - i,
    {
        if p.entries[i].entry_subject_id < 0 || p.entries[i].progress < 0 {
            return false;
        }
        i = i + 1;
    }
    true
}

fn page_row(list_subject_id: i64, label: &str, o: Option<i64>, row: &mut Vec<InlineButton>)
    requires
        list_subject_id >= 0,
        o matches Some(v) ==> v >= 0,
    ensures
        row_view(*final(row)) == row_view(*old(row)) + page_button(list_subject_id, label@, o),
{
    if let Some(offset) = o {
        let c = QueryCommand::Offset { list_subject_id, offset };
        row.push(callback_button(String::from_str(label), &c));
        assert(row_view(*final(row)) =~= row_view(*old(row)) + page_button(list_subject_id, label@, o));
    } else {
        assert(row_view(*final(row)) =~= row_view(*old(row)) + page_button(list_subject_id, label@, o));
    }
}

/// The text and keyboard that show a page of the list `list_subject_id`:
/// a line and a detail button per entry, then buttons to the pages around it.
pub fn list_response(list_subject_id: i64, p: &EntryPage) -> (r: Response)
    requires
        list_subject_id >= 0,
        page_ok(*p),
    ensures
        r@ == list_response_view(list_subject_id, *p),
        r@.keyboard->0.len() > 0 && r@.keyboard->0[0].len() > 0,
{
    let ghost es = p.entries@.map_values(|e: ListEntry| e@);
    let mut text = String::new();
    let mut rows: Vec<Vec<InlineButton>> = Vec::new();
    let mut i: usize = 0;
    assert(es.take(0) =~= Seq::<ListEntryView>::empty());
    while i < p.entries.len()
        invariant
            i <= p.entries.len(),
            list_subject_id >= 0,
            page_ok(*p),
            es == p.entries@.map_values(|e: ListEntry| e@),
            text@ == list_text(es.take(i as int)),
            keyboard_view(rows) == entry_rows(list_subject_id, es.take(i as int)),
        decreases p.entries.len() - i,
    {
        let e = &p.entries[i];
        let ghost old_text = text@;
        let ghost old_rows = keyboard_view(rows);
        assert(es.take(i + 1).drop_last() =~= es.take(i as int));
        assert(es.take(i + 1).last() == es[i as int]);
        assert(es[i as int] == e@);
        push_text(&mut text, "<b>");
        push_text(&mut text, e.title.as_str());
        push_text(&mut text, "</b> ");
        assert(e.entry_subject_id >= 0 && e.progress >= 0) by {
            assert(p.entries@[i as int].entry_subject_id >= 0);
        }
        push_decimal(&mut text, e.progress as u64);
        push_text(&mut text, "\n");
        let c = QueryCommand::Detail { list_subject_id, entry_subject_id: e.entry_subject_id };
        let mut row: Vec<InlineButton> = Vec::new();
        row.push(callback_button(e.title.clone(), &c));
        rows.push(row);
        assert(text@ =~= old_text + entry_line(e@));
        assert(row_view(row) =~= seq![
            button(
                e.title@,
                QueryView::Detail { list_subject_id, entry_subject_id: e.entry_subject_id },
            ),
        ]);
        assert(keyboard_view(rows) =~= old_rows.push(row_view(row)));
        i = i + 1;
        assert(text@ =~= list_text(es.take(i as int)));
        assert(keyboard_view(rows) =~= entry_rows(list_subject_id, es.take(i as int)));
    }
    assert(es.take(i as int) =~= es);
    let mut nav: Vec<InlineButton> = Vec::new();
    page_row(list_subject_id, "prev", p.prev, &mut nav);
    page_row(list_subject_id, "next", p.next, &mut nav);
    assert(row_view(nav) =~= navigation_row(list_subject_id, p.prev, p.next));
    if nav.len() > 0 {
        rows.push(nav);
        assert(keyboard_view(rows) =~= entry_rows(list_subject_id, es).push(
            navigation_row(list_subject_id, p.prev, p.next),
        ));
    }
    if rows.len() == 0 {
        let mut reload: Vec<InlineButton> = Vec::new();
        let c = QueryCommand::Offset { list_subject_id, offset: 0 };
        reload.push(callback_button(String::from_str("reload"), &c));
        assert(row_view(reload) =~= reload_row(list_subject_id));
        rows.push(reload);
        assert(keyboard_view(rows) =~= seq![reload_row(list_subject_id)]);
    } else if p.entries.len() == 0 {
        assert(keyboard_view(rows)[0] == navigation_row(list_subject_id, p.prev, p.next));
    } else {
        assert(keyboard_view(rows)[0] == entry_rows(list_subject_id, es)[0]);
    }
    Response { text, rich: true, keyboard: Some(rows) }
}

pub open spec fn detail_ok(d: EntryDetail) -> bool {
    &&& 0 <= d.progress < i64::MAX
    &&& is_plain_field(d.entry_subject_id@)
    &&& is_plain_field(d.list_entry_id@)
}

/// Whether another episode can be marked as watched.
pub open spec fn has_next_episode(d: EntryDetail) -> bool {
    match d.episode_count {
        Some(n) => d.progress < n,
        None => true,
    }
}

pub open spec fn detail_text(d: EntryDetail) -> Seq<char> {
    "<b>"@ + d.title@ + "</b>\nProgress: "@ + decimal(d.progress as nat) + match d.episode_count {
        Some(n) => "/"@ + (if n >= 0 { decimal(n as nat) } else { "?"@ }),
        None => "/?"@,
    }
}

pub open spec fn back_to_list(list_subject_id: i64) -> Seq<ButtonView> {
    seq![button("back to list"@, QueryView::Offset { list_subject_id, offset: 0 })]
}

/// The response that shows one entry: a button that records the next episode,
/// where there is one, and a button back to the first page of the list.
pub open spec fn detail_response_view(list_subject_id: i64, d: EntryDetail) -> ResponseView {
    let next = QueryView::Progress {
        list_subject_id,
        entry_subject_id: d.entry_subject_id@,
        list_entry_id: d.list_entry_id@,
        progress: (d.progress + 1) as i64,
    };
    let label = "episode "@ + decimal((d.progress + 1) as nat);
    ResponseView {
        text: detail_text(d),
        rich: true,
        keyboard: Some(
            if has_next_episode(d) {
                seq![seq![button(label, next)], back_to_list(list_subject_id)]
            } else {
                seq![back_to_list(list_subject_id)]
            },
        ),
    }
}

/// Whether the fields of a detail can be shown and carried in payloads.
pub fn detail_is_showable(d: &EntryDetail) -> (r: bool)
    ensures
        r == detail_ok(*d),
{
    d.progress >= 0 && d.progress < i64::MAX && is_plain(d.entry_subject_id.as_str())
        && is_plain(d.list_entry_id.as_str())
}

/// Whether `s` holds no slash.
pub fn is_plain(s: &str) -> (r: bool)
    ensures
        r == is_plain_field(s@),
{
    let cs = crate::text::chars_of(s);
    let mut i: usize = 0;
    while i < cs.len()
        invariant
            cs@ == s@,
            i <= cs.len(),
            forall|j: int| 0 <= j < i ==> #[trigger] cs@[j] != '/',
        decreases cs.len() - i,
    {
        if cs[i] == '/' {
            return false;
        }
        i = i + 1;
    }
    true
}

fn back_to_list_row(list_subject_id: i64) -> (r: Vec<InlineButton>)
    requires
        list_subject_id >= 0,
    ensures
        row_view(r) == back_to_list(list_subject_id),
{
    let mut row: Vec<InlineButton> = Vec::new();
    let c = QueryCommand::Offset { list_subject_id, offset: 0 };
    row.push(callback_button(String::from_str("back to list"), &c));
    assert(row_view(row) =~= back_to_list(list_subject_id));
    row
}

/// The text and keyboard that show one entry of the list `list_subject_id`.
pub fn detail_response(list_subject_id: i64, d: &EntryDetail) -> (r: Response)
    requires
        list_subject_id >= 0,
        detail_ok(*d),
    ensures
        r@ == detail_response_view(list_subject_id, *d),
{
    let mut text = String::new();
    push_text(&mut text, "<b>");
    push_text(&mut text, d.title.as_str());
    push_text(&mut text, "</b>\nProgress: ");
    push_decimal(&mut text, d.progress as u64);
    let has_next = match d.episode_count {
        Some(n) => {
            push_text(&mut text, "/");
            if n >= 0 {
                push_decimal(&mut text, n as u64);
            } else {
                push_text(&mut text, "?");
            }
            d.progress < n
        },
        None => {
            push_text(&mut text, "/?");
            true
        },
    };
    assert(text@ =~= detail_text(*d));
    let mut rows: Vec<Vec<InlineButton>> = Vec::new();
    if has_next {
        let next = d.progress + 1;
        let mut label = String::new();
        push_text(&mut label, "episode ");
        push_decimal(&mut label, next as u64);
        let c = QueryCommand::Progress {
            list_subject_id,
            entry_subject_id: d.entry_subject_id.clone(),
            list_entry_id: d.list_entry_id.clone(),
            progress: next,
        };
        let mut row: Vec<InlineButton> = Vec::new();
        row.push(callback_button(label, &c));
        assert(row_view(row) =~= seq![
            button(
                "episode "@ + decimal((d.progress + 1) as nat),
                QueryView::Progress {
                    list_subject_id,
                    entry_subject_id: d.entry_subject_id@,
                    list_entry_id: d.list_entry_id@,
                    progress: (d.progress + 1) as i64,
                },
            ),
        ]);
        rows.push(row);
    }
    rows.push(back_to_list_row(list_subject_id));
    let r = Response { text, rich: true, keyboard: Some(rows) };
    assert(r@.keyboard->0 =~= detail_response_view(list_subject_id, *d).keyboard->0);
    r
}

/// The payload that reopens the detail view of `entry_subject_id`, written
/// as it was received.
pub open spec fn detail_path(list_subject_id: i64, entry_subject_id: Seq<char>) -> Seq<char> {
    "/"@ + decimal(list_subject_id as nat) + "/detail/"@ + entry_subject_id + "/"@
}

/// The confirmation of a progress update, with buttons back to the entry and
/// back to the first page of the list.
pub open spec fn progress_response_view(
    list_subject_id: i64,
    entry_subject_id: Seq<char>,
    progress: i64,
) -> ResponseView {
    ResponseView {
        text: "Successful update to episode "@ + decimal(progress as nat),
        rich: true,
        keyboard: Some(
            seq![
                seq![
                    ButtonView {
                        label: "back to anime"@,
                        callback_data: Some(detail_path(list_subject_id, entry_subject_id)),
                    },
                ],
                back_to_list(list_subject_id),
            ],
        ),
    }
}

/// The text and keyboard that confirm a progress update.
pub fn progress_response(list_subject_id: i64, entry_subject_id: &String, progress: i64) -> (r:
    Response)
    requires
        list_subject_id >= 0,
        progress >= 0,
    ensures
        r@ == progress_response_view(list_subject_id, entry_subject_id@, progress),
{
    let mut text = String::new();
    push_text(&mut text, "Successful update to episode ");
    push_decimal(&mut text, progress as u64);
    let mut path = String::new();
    push_text(&mut path, "/");
    push_decimal(&mut path, list_subject_id as u64);
    push_text(&mut path, "/detail/");
    push_text(&mut path, entry_subject_id.as_str());
    push_text(&mut path, "/");
    assert(path@ =~= detail_path(list_subject_id, entry_subject_id@));
    let mut back: Vec<InlineButton> = Vec::new();
    back.push(InlineButton { label: String::from_str("back to anime"), callback_data: Some(path) });
    assert(row_view(back) =~= seq![
        ButtonView {
            label: "back to anime"@,
            callback_data: Some(detail_path(list_subject_id, entry_subject_id@)),
        },
    ]);
    let mut rows: Vec<Vec<InlineButton>> = Vec::new();
    rows.push(back);
    rows.push(back_to_list_row(list_subject_id));
    let r = Response { text, rich: true, keyboard: Some(rows) };
    assert(text@ =~= "Successful update to episode "@ + decimal(progress as nat));
    assert(r@.keyboard->0 =~= progress_response_view(list_subject_id, entry_subject_id@, progress).keyboard->0);
    r
}

/// The button back to an entry, whose id came in as text, reopens that
/// entry's detail view whenever the id is a number.
pub proof fn lemma_back_to_entry_decodes(list_subject_id: i64, entry_subject_id: Seq<char>)
    requires
        list_subject_id >= 0,
        numeric_field(entry_subject_id) is Some,
    ensures
        decode_view(detail_path(list_subject_id, entry_subject_id)) == Some(
            QueryView::Detail {
                list_subject_id,
                entry_subject_id: numeric_field(entry_subject_id)->0,
            },
        ),
{
    let e = Seq::<char>::empty();
    let fields = seq![decimal(list_subject_id as nat), detail_tag(), entry_subject_id];
    lemma_decimal_value(list_subject_id as nat);
    assert forall|k: int| 0 <= k < fields.len() implies is_plain_field(#[trigger] fields[k]) by {
        assert forall|i: int| 0 <= i < fields[k].len() implies #[trigger] fields[k][i] != '/' by {
            if k != 1 {
                assert(is_digit(fields[k][i]));
            }
        }
    }
    reveal_strlit("/");
    reveal_strlit("/detail/");
    reveal_with_fuel(path_of, 4);
    assert(detail_path(list_subject_id, entry_subject_id) =~= path_of(fields));
    lemma_segments_of_path(fields);
    let g = segments(path_of(fields));
    assert(g == seq![e] + fields + seq![e]);
    assert(g[1] == decimal(list_subject_id as nat));
    assert(g[2] == detail_tag());
    assert(g[3] == entry_subject_id);
    assert(g.len() == 5);
    assert(detail_tag() != offset_tag()) by {
        assert(detail_tag()[0] != offset_tag()[0]);
    }
}

/// Every shown list page has a keyboard with at least one button in its
/// first row.
pub proof fn lemma_list_keyboard_nonempty(list_subject_id: i64, p: EntryPage)
    ensures
        list_response_view(list_subject_id, p).keyboard->0.len() > 0,
        list_response_view(list_subject_id, p).keyboard->0[0].len() > 0,
{
    let es = p.entries@.map_values(|e: ListEntry| e@);
    let nav = navigation_row(list_subject_id, p.prev, p.next);
    if es.len() > 0 {
        assert(entry_rows(list_subject_id, es)[0].len() == 1);
    } else if nav.len() > 0 {
        assert(entry_rows(list_subject_id, es).push(nav)[0] == nav);
    }
}

} // verus!
