//! The wire format of the remote workspace: JSON string escaping, the
//! request bodies the synchronizer sends, and the request paths, all built
//! character-exactly against spec-level renderings.

use vstd::prelude::*;
use crate::text::{chars_of, push_char};

verus! {

/// The hexadecimal digit for a value below sixteen.
pub open spec fn hex_char(n: int) -> char {
    if n == 0 {
        '0'
    } else if n == 1 {
        '1'
    } else if n == 2 {
        '2'
    } else if n == 3 {
        '3'
    } else if n == 4 {
        '4'
    } else if n == 5 {
        '5'
    } else if n == 6 {
        '6'
    } else if n == 7 {
        '7'
    } else if n == 8 {
        '8'
    } else if n == 9 {
        '9'
    } else if n == 10 {
        'a'
    } else if n == 11 {
        'b'
    } else if n == 12 {
        'c'
    } else if n == 13 {
        'd'
    } else if n == 14 {
        'e'
    } else {
        'f'
    }
}

fn hex_digit(n: u32) -> (r: char)
    requires
        n < 16,
    ensures
        r == hex_char(n as int),
{
    match n {
        0 => '0',
        1 => '1',
        2 => '2',
        3 => '3',
        4 => '4',
        5 => '5',
        6 => '6',
        7 => '7',
        8 => '8',
        9 => '9',
        10 => 'a',
        11 => 'b',
        12 => 'c',
        13 => 'd',
        14 => 'e',
        _ => 'f',
    }
}

/// How one character is written inside a JSON string literal.
pub open spec fn escape_char(c: char) -> Seq<char> {
    if c == '"' {
        seq!['\\', '"']
    } else if c == '\\' {
        seq!['\\', '\\']
    } else if c == '\n' {
        seq!['\\', 'n']
    } else if c == '\r' {
        seq!['\\', 'r']
    } else if c == '\t' {
        seq!['\\', 't']
    } else if c == '\u{8}' {
        seq!['\\', 'b']
    } else if c == '\u{c}' {
        seq!['\\', 'f']
    } else if (c as int) < 0x20 {
        seq!['\\', 'u', '0', '0', hex_char((c as int) / 16), hex_char((c as int) % 16)]
    } else {
        seq![c]
    }
}

/// The body of a JSON string literal: every character escaped in order.
pub open spec fn escape_seq(s: Seq<char>) -> Seq<char>
    decreases s.len(),
{
    if s.len() == 0 {
        Seq::<char>::empty()
    } else {
        escape_char(s[0]) + escape_seq(s.subrange(1, s.len() as int))
    }
}

/// A JSON string literal holding the given text.
pub open spec fn json_string(s: Seq<char>) -> Seq<char> {
    seq!['"'] + escape_seq(s) + seq!['"']
}

proof fn lemma_escape_push(p: Seq<char>, c: char)
    ensures
        escape_seq(p.push(c)) == escape_seq(p) + escape_char(c),
    decreases p.len(),
{
    let q = p.push(c);
    if p.len() == 0 {
        assert(q.len() == 1);
        assert(q[0] == c);
        assert(q.subrange(1, q.len() as int) =~= Seq::<char>::empty());
        assert(escape_seq(q) == escape_char(c) + escape_seq(Seq::<char>::empty()));
        assert(escape_seq(p) == Seq::<char>::empty());
        assert(escape_seq(q) =~= escape_seq(p) + escape_char(c));
    } else {
        assert(q[0] == p[0]);
        assert(q.subrange(1, q.len() as int) =~= p.subrange(1, p.len() as int).push(c));
        lemma_escape_push(p.subrange(1, p.len() as int), c);
        assert(escape_seq(q) =~= escape_seq(p) + escape_char(c));
    }
}

fn append_escaped_char(out: &mut String, c: char)
    ensures
        final(out)@ == old(out)@ + escape_char(c),
{
    let n = c as u32;
    if c == '"' {
        push_char(out, '\\');
        push_char(out, '"');
    } else if c == '\\' {
        push_char(out, '\\');
        push_char(out, '\\');
    } else if c == '\n' {
        push_char(out, '\\');
        push_char(out, 'n');
    } else if c == '\r' {
        push_char(out, '\\');
        push_char(out, 'r');
    } else if c == '\t' {
        push_char(out, '\\');
        push_char(out, 't');
    } else if n == 0x8 {
        push_char(out, '\\');
        push_char(out, 'b');
    } else if n == 0xc {
        push_char(out, '\\');
        push_char(out, 'f');
    } else if n < 0x20 {
        push_char(out, '\\');
        push_char(out, 'u');
        push_char(out, '0');
        push_char(out, '0');
        push_char(out, hex_digit(n / 16));
        push_char(out, hex_digit(n % 16));
    } else {
        push_char(out, c);
    }
    proof {
        assert(out@ =~= old(out)@ + escape_char(c));
    }
}

/// Appends the text as a JSON string literal, quoted and escaped.
pub fn append_json_string(out: &mut String, s: &str)
    ensures
        final(out)@ == old(out)@ + json_string(s@),
{
    let cs = chars_of(s);
    push_char(out, '"');
    let mut i: usize = 0;
    while i < cs.len()
        invariant
            i <= cs@.len(),
            cs@ == s@,
            out@ == old(out)@ + seq!['"'] + escape_seq(s@.subrange(0, i as int)),
        decreases cs@.len() - i,
    {
        append_escaped_char(out, cs[i]);
        proof {
            lemma_escape_push(s@.subrange(0, i as int), s@[i as int]);
            assert(s@.subrange(0, i + 1) =~= s@.subrange(0, i as int).push(s@[i as int]));
            assert(out@ =~= old(out)@ + seq!['"'] + escape_seq(s@.subrange(0, i + 1)));
        }
        i = i + 1;
    }
    push_char(out, '"');
    proof {
        assert(s@.subrange(0, s@.len() as int) =~= s@);
        assert(out@ =~= old(out)@ + json_string(s@));
    }
}

/// The query that looks a page up by its exact title.
pub open spec fn query_by_title_payload_spec(title: Seq<char>) -> Seq<char> {
    "{\"filter\":{\"property\":\"Name\",\"title\":{\"equals\":"@ + json_string(title) + "}}}"@
}

/// Builds the page query body for an exact title match.
pub fn query_by_title_payload(title: &str) -> (r: String)
    ensures
        r@ == query_by_title_payload_spec(title@),
{
    let mut r = String::new();
    r.append("{\"filter\":{\"property\":\"Name\",\"title\":{\"equals\":");
    append_json_string(&mut r, title);
    r.append("}}}");
    proof {
        assert(r@ =~= query_by_title_payload_spec(title@));
    }
    r
}

/// The body that creates a page with the given title and creation timestamp
/// under the given collection.
pub open spec fn create_page_payload_spec(title: Seq<char>, db: Seq<char>, ts: Seq<char>) -> Seq<
    char,
> {
    "{\"parent\":{\"database_id\":"@ + json_string(db)
        + "},\"properties\":{\"Name\":{\"title\":[{\"type\":\"text\",\"text\":{\"content\":"@
        + json_string(title) + "}}]},\"Date\":{\"date\":{\"start\":"@ + json_string(ts) + "}}}}"@
}

/// Builds the create-page body.
pub fn create_page_payload(title: &str, db: &str, ts: &str) -> (r: String)
    ensures
        r@ == create_page_payload_spec(title@, db@, ts@),
{
    let mut r = String::new();
    r.append("{\"parent\":{\"database_id\":");
    append_json_string(&mut r, db);
    r.append("},\"properties\":{\"Name\":{\"title\":[{\"type\":\"text\",\"text\":{\"content\":");
    append_json_string(&mut r, title);
    r.append("}}]},\"Date\":{\"date\":{\"start\":");
    append_json_string(&mut r, ts);
    r.append("}}}}");
    proof {
        assert(r@ =~= create_page_payload_spec(title@, db@, ts@));
    }
    r
}

/// One unit of appended page content: a sub-period header or one entry.
pub enum ContentBlock {
    Header(String),
    Entry(String),
}

/// The mathematical model of a content block.
pub enum BlockModel {
    Header(Seq<char>),
    Entry(Seq<char>),
}

impl View for ContentBlock {
    type V = BlockModel;

    open spec fn view(&self) -> BlockModel {
        match self {
            ContentBlock::Header(t) => BlockModel::Header(t@),
            ContentBlock::Entry(t) => BlockModel::Entry(t@),
        }
    }
}

/// The JSON object for one content block: headers become heading blocks,
/// entries become bulleted list items.
pub open spec fn block_json(b: BlockModel) -> Seq<char> {
    match b {
        BlockModel::Header(t) => "{\"type\":\"heading_3\",\"heading_3\":{\"rich_text\":[{\"type\":\"text\",\"text\":{\"content\":"@
            + json_string(t) + "}}]}}"@,
        BlockModel::Entry(t) => "{\"type\":\"bulleted_list_item\",\"bulleted_list_item\":{\"rich_text\":[{\"type\":\"text\",\"text\":{\"content\":"@
            + json_string(t) + "}}]}}"@,
    }
}

/// The comma-joined JSON objects of the first `i` blocks.
pub open spec fn blocks_json_upto(bs: Seq<BlockModel>, i: int) -> Seq<char>
    decreases i,
{
    if i <= 0 {
        Seq::<char>::empty()
    } else if i == 1 {
        block_json(bs[0])
    } else {
        blocks_json_upto(bs, i - 1) + ","@ + block_json(bs[i - 1])
    }
}

/// The comma-joined JSON objects of all the blocks, in order.
pub open spec fn blocks_json(bs: Seq<BlockModel>) -> Seq<char> {
    blocks_json_upto(bs, bs.len() as int)
}

/// The body that appends the given blocks, in order, at the end of a page.
pub open spec fn append_blocks_payload_spec(bs: Seq<BlockModel>) -> Seq<char> {
    "{\"children\":["@ + blocks_json(bs) + "]}"@
}

fn append_block_json(out: &mut String, b: &ContentBlock)
    ensures
        final(out)@ == old(out)@ + block_json(b@),
{
    match b {
        ContentBlock::Header(t) => {
            out.append(
                "{\"type\":\"heading_3\",\"heading_3\":{\"rich_text\":[{\"type\":\"text\",\"text\":{\"content\":",
            );
            append_json_string(out, t.as_str());
            out.append("}}]}}");
        },
        ContentBlock::Entry(t) => {
            out.append(
                "{\"type\":\"bulleted_list_item\",\"bulleted_list_item\":{\"rich_text\":[{\"type\":\"text\",\"text\":{\"content\":",
            );
            append_json_string(out, t.as_str());
            out.append("}}]}}");
        },
    }
    proof {
        assert(out@ =~= old(out)@ + block_json(b@));
    }
}

/// Builds the append-blocks body: all blocks in one request, in order.
pub fn append_blocks_payload(blocks: &Vec<ContentBlock>) -> (r: String)
    ensures
        r@ == append_blocks_payload_spec(blocks@.map_values(|b: ContentBlock| b@)),
{
    let ghost bviews = blocks@.map_values(|b: ContentBlock| b@);
    let mut r = String::new();
    r.append("{\"children\":[");
    let mut i: usize = 0;
    while i < blocks.len()
        invariant
            i <= blocks@.len(),
            bviews == blocks@.map_values(|b: ContentBlock| b@),
            r@ == "{\"children\":["@ + blocks_json_upto(bviews, i as int),
        decreases blocks@.len() - i,
    {
        if i > 0 {
            r.append(",");
        }
        append_block_json(&mut r, &blocks[i]);
        i = i + 1;
        proof {
            assert(r@ =~= "{\"children\":["@ + blocks_json_upto(bviews, i as int));
        }
    }
    r.append("]}");
    proof {
        assert(r@ =~= append_blocks_payload_spec(bviews));
    }
    r
}

/// One tag option inside the tag-update body.
pub open spec fn tag_json(t: Seq<char>) -> Seq<char> {
    "{\"name\":"@ + json_string(t) + "}"@
}

/// The comma-joined tag objects of the first `i` tags.
pub open spec fn tags_json_upto(ts: Seq<Seq<char>>, i: int) -> Seq<char>
    decreases i,
{
    if i <= 0 {
        Seq::<char>::empty()
    } else if i == 1 {
        tag_json(ts[0])
    } else {
        tags_json_upto(ts, i - 1) + ","@ + tag_json(ts[i - 1])
    }
}

/// The body that writes the full tag set of a page.
pub open spec fn update_tags_payload_spec(ts: Seq<Seq<char>>) -> Seq<char> {
    "{\"properties\":{\"Tag\":{\"multi_select\":["@ + tags_json_upto(ts, ts.len() as int) + "]}}}"@
}

/// Builds the tag-update body holding the full merged tag set.
pub fn update_tags_payload(tags: &Vec<String>) -> (r: String)
    ensures
        r@ == update_tags_payload_spec(tags@.map_values(|t: String| t@)),
{
    let ghost tviews = tags@.map_values(|t: String| t@);
    let mut r = String::new();
    r.append("{\"properties\":{\"Tag\":{\"multi_select\":[");
    let mut i: usize = 0;
    while i < tags.len()
        invariant
            i <= tags@.len(),
            tviews == tags@.map_values(|t: String| t@),
            r@ == "{\"properties\":{\"Tag\":{\"multi_select\":["@ + tags_json_upto(
                tviews,
                i as int,
            ),
        decreases tags@.len() - i,
    {
        if i > 0 {
            r.append(",");
        }
        r.append("{\"name\":");
        append_json_string(&mut r, tags[i].as_str());
        r.append("}");
        i = i + 1;
        proof {
            assert(r@ =~= "{\"properties\":{\"Tag\":{\"multi_select\":["@ + tags_json_upto(
                tviews,
                i as int,
            ));
        }
    }
    r.append("]}}}");
    proof {
        assert(r@ =~= update_tags_payload_spec(tviews));
    }
    r
}

/// The title that marks the journal's own collection in the workspace.
pub open spec fn marker_title_spec() -> Seq<char> {
    "GJ Dead Simple Journal"@
}

/// The collection title the journal creates and searches for.
pub fn marker_title() -> (r: &'static str)
    ensures
        r@ == marker_title_spec(),
{
    "GJ Dead Simple Journal"
}

/// The body that creates the journal's collection under a root page, with
/// its fixed schema and tag options.
pub open spec fn create_database_payload_spec(root: Seq<char>) -> Seq<char> {
    "{\"is_inline\":true,\"parent\":{\"type\":\"page_id\",\"page_id\":"@ + json_string(root)
        + "},\"title\":[{\"type\":\"text\",\"text\":{\"content\":"@ + json_string(
        marker_title_spec(),
    )
        + "}}],\"properties\":{\"Name\":{\"title\":{}},\"Date\":{\"date\":{}},\"Highlights\":{\"rich_text\":{}},\"Tag\":{\"multi_select\":{\"options\":[{\"name\":\"Momentum\",\"color\":\"green\"},{\"name\":\"Burnout\",\"color\":\"gray\"},{\"name\":\"Learning\",\"color\":\"pink\"},{\"name\":\"Deep Work\",\"color\":\"orange\"},{\"name\":\"Heavy Context Switching\",\"color\":\"purple\"},{\"name\":\"Blocked\",\"color\":\"yellow\"},{\"name\":\"Planning\",\"color\":\"default\"},{\"name\":\"Collaboration\",\"color\":\"brown\"},{\"name\":\"Maintenance\",\"color\":\"blue\"},{\"name\":\"Building\",\"color\":\"red\"}]}}}}"@
}

/// Builds the create-collection body.
pub fn create_database_payload(root: &str) -> (r: String)
    ensures
        r@ == create_database_payload_spec(root@),
{
    let mut r = String::new();
    r.append("{\"is_inline\":true,\"parent\":{\"type\":\"page_id\",\"page_id\":");
    append_json_string(&mut r, root);
    r.append("},\"title\":[{\"type\":\"text\",\"text\":{\"content\":");
    append_json_string(&mut r, marker_title());
    r.append(
        "}}],\"properties\":{\"Name\":{\"title\":{}},\"Date\":{\"date\":{}},\"Highlights\":{\"rich_text\":{}},\"Tag\":{\"multi_select\":{\"options\":[{\"name\":\"Momentum\",\"color\":\"green\"},{\"name\":\"Burnout\",\"color\":\"gray\"},{\"name\":\"Learning\",\"color\":\"pink\"},{\"name\":\"Deep Work\",\"color\":\"orange\"},{\"name\":\"Heavy Context Switching\",\"color\":\"purple\"},{\"name\":\"Blocked\",\"color\":\"yellow\"},{\"name\":\"Planning\",\"color\":\"default\"},{\"name\":\"Collaboration\",\"color\":\"brown\"},{\"name\":\"Maintenance\",\"color\":\"blue\"},{\"name\":\"Building\",\"color\":\"red\"}]}}}}",
    );
    proof {
        assert(r@ =~= create_database_payload_spec(root@));
    }
    r
}

/// The body that searches the workspace for database objects.
pub open spec fn search_databases_payload_spec() -> Seq<char> {
    "{\"filter\":{\"value\":\"database\",\"property\":\"object\"}}"@
}

/// Builds the database search body.
pub fn search_databases_payload() -> (r: &'static str)
    ensures
        r@ == search_databases_payload_spec(),
{
    "{\"filter\":{\"value\":\"database\",\"property\":\"object\"}}"
}

/// The value of the authorization header: the bearer scheme with the token.
pub fn bearer_header(token: &str) -> (r: String)
    ensures
        r@ == "Bearer "@ + token@,
{
    let mut r = String::from_str("Bearer ");
    r.append(token);
    r
}

/// The protocol version the requests are made against.
pub fn notion_version() -> (r: &'static str)
    ensures
        r@ == "2022-06-28"@,
{
    "2022-06-28"
}

/// The request path that queries a collection for pages.
pub fn query_path(db: &str) -> (r: String)
    ensures
        r@ == "/v1/databases/"@ + db@ + "/query"@,
{
    let mut r = String::from_str("/v1/databases/");
    r.append(db);
    r.append("/query");
    proof {
        assert(r@ =~= "/v1/databases/"@ + db@ + "/query"@);
    }
    r
}

/// The request path that appends child blocks to a page.
pub fn children_path(page: &str) -> (r: String)
    ensures
        r@ == "/v1/blocks/"@ + page@ + "/children"@,
{
    let mut r = String::from_str("/v1/blocks/");
    r.append(page);
    r.append("/children");
    proof {
        assert(r@ =~= "/v1/blocks/"@ + page@ + "/children"@);
    }
    r
}

/// The request path that reads or patches one page.
pub fn page_path(page: &str) -> (r: String)
    ensures
        r@ == "/v1/pages/"@ + page@,
{
    let mut r = String::from_str("/v1/pages/");
    r.append(page);
    proof {
        assert(r@ =~= "/v1/pages/"@ + page@);
    }
    r
}

} // verus!
