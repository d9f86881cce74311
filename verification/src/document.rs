//! The on-disk form of the configuration: a YAML mapping with the
//! `music_database` entry followed by the `theme` mapping, one value per
//! line.  The library writes every value as a single-quoted scalar; when it
//! reads, a value may also stand plain (unquoted), as other writers leave
//! it.  The shape is checked strictly: a document missing any field, with
//! an empty music database path, or shaped otherwise does not parse.

use vstd::prelude::*;
use crate::config::{ConfigModel, InitConfig, InitTheme, ThemeModel};
use crate::error::ConfigError;

verus! {

/// The label that opens the music database entry.
pub open spec fn music_label() -> Seq<char> {
    "music_database: "@
}

/// The line that opens the theme mapping.
pub open spec fn theme_header() -> Seq<char> {
    "theme:\n"@
}

/// The labels of the theme entries, in the order they are written.
pub open spec fn theme_labels() -> Seq<Seq<char>> {
    seq![
        "  list_title_color: "@,
        "  list_title_page_color: "@,
        "  list_border_color: "@,
        "  list_music_color: "@,
        "  list_folder_color: "@,
        "  list_icon_color: "@,
        "  list_selected_color: "@,
        "  search_border_color: "@,
        "  search_icon_color: "@,
        "  search_font_color: "@,
        "  command_font_color: "@,
        "  command_border_color: "@,
        "  music_pic_color1: "@,
        "  music_pic_color2: "@,
        "  usage_color_left: "@,
        "  usage_color_right: "@,
        "  cut_off_rule_color: "@,
        "  play_music_list_title_color: "@,
        "  play_music_list_border_color: "@,
        "  play_music_list_id_color: "@,
        "  play_music_list_duration_color: "@,
        "  play_music_list_name_color: "@,
        "  play_music_list_artist_color: "@,
        "  play_music_list_album_color: "@,
        "  play_music_list_header_color: "@,
        "  playing_music_border_color: "@,
        "  playing_music_name_color: "@,
        "  volume_icon_color: "@,
        "  volume_value_color: "@,
        "  gauge_color: "@,
        "  gauge_border_color: "@,
        "  gauge_label_color: "@,
    ]
}

/// The theme colors in the order of `theme_labels`.
pub open spec fn theme_values(t: ThemeModel) -> Seq<Seq<char>> {
    seq![
        t.list_title_color,
        t.list_title_page_color,
        t.list_border_color,
        t.list_music_color,
        t.list_folder_color,
        t.list_icon_color,
        t.list_selected_color,
        t.search_border_color,
        t.search_icon_color,
        t.search_font_color,
        t.command_font_color,
        t.command_border_color,
        t.music_pic_color1,
        t.music_pic_color2,
        t.usage_color_left,
        t.usage_color_right,
        t.cut_off_rule_color,
        t.play_music_list_title_color,
        t.play_music_list_border_color,
        t.play_music_list_id_color,
        t.play_music_list_duration_color,
        t.play_music_list_name_color,
        t.play_music_list_artist_color,
        t.play_music_list_album_color,
        t.play_music_list_header_color,
        t.playing_music_border_color,
        t.playing_music_name_color,
        t.volume_icon_color,
        t.volume_value_color,
        t.gauge_color,
        t.gauge_border_color,
        t.gauge_label_color,
    ]
}

/// The theme whose colors are `vs`, in the order of `theme_labels`.
pub open spec fn theme_of_values(vs: Seq<Seq<char>>) -> ThemeModel {
    ThemeModel {
        list_title_color: vs[0],
        list_title_page_color: vs[1],
        list_border_color: vs[2],
        list_music_color: vs[3],
        list_folder_color: vs[4],
        list_icon_color: vs[5],
        list_selected_color: vs[6],
        search_border_color: vs[7],
        search_icon_color: vs[8],
        search_font_color: vs[9],
        command_font_color: vs[10],
        command_border_color: vs[11],
        music_pic_color1: vs[12],
        music_pic_color2: vs[13],
        usage_color_left: vs[14],
        usage_color_right: vs[15],
        cut_off_rule_color: vs[16],
        play_music_list_title_color: vs[17],
        play_music_list_border_color: vs[18],
        play_music_list_id_color: vs[19],
        play_music_list_duration_color: vs[20],
        play_music_list_name_color: vs[21],
        play_music_list_artist_color: vs[22],
        play_music_list_album_color: vs[23],
        play_music_list_header_color: vs[24],
        playing_music_border_color: vs[25],
        playing_music_name_color: vs[26],
        volume_icon_color: vs[27],
        volume_value_color: vs[28],
        gauge_color: vs[29],
        gauge_border_color: vs[30],
        gauge_label_color: vs[31],
    }
}

/// Holds when a value can stand on one line of the document.
pub open spec fn line_free(v: Seq<char>) -> bool {
    forall|k: int| 0 <= k < v.len() ==> v[k] != '\n'
}

/// Holds when every field of the configuration can stand on its line.
pub open spec fn model_line_free(c: ConfigModel) -> bool {
    &&& line_free(c.music_database)
    &&& forall|k: int|
        0 <= k < theme_values(c.theme).len() ==> line_free(#[trigger] theme_values(c.theme)[k])
}

/// How one character is written inside a single-quoted scalar: a quote is
/// doubled, everything else stands as it is.
pub open spec fn esc(c: char) -> Seq<char> {
    if c == '\'' {
        seq!['\'', '\'']
    } else {
        seq![c]
    }
}

/// The body of a single-quoted scalar holding the value `v`.
pub open spec fn quote_chars(v: Seq<char>) -> Seq<char>
    decreases v.len(),
{
    if v.len() == 0 {
        Seq::empty()
    } else {
        esc(v.first()) + quote_chars(v.drop_first())
    }
}

/// One line of the document: a label, then the quoted value, then a newline.
pub open spec fn entry_line(label: Seq<char>, v: Seq<char>) -> Seq<char> {
    label + seq!['\''] + quote_chars(v) + seq!['\'', '\n']
}

/// The lines for the entries `li..` of a label/value table.
pub open spec fn emit_entries(labels: Seq<Seq<char>>, values: Seq<Seq<char>>, li: int) -> Seq<
    char,
>
    decreases labels.len() - li,
{
    if li < 0 || li >= labels.len() {
        Seq::empty()
    } else {
        entry_line(labels[li], values[li]) + emit_entries(labels, values, li + 1)
    }
}

/// The full text written for a configuration.
pub open spec fn emit_document(c: ConfigModel) -> Seq<char> {
    entry_line(music_label(), c.music_database) + theme_header() + emit_entries(
        theme_labels(),
        theme_values(c.theme),
        0,
    )
}

/// Holds when `pat` stands in `s` at position `i`.
pub open spec fn match_at(s: Seq<char>, i: int, pat: Seq<char>) -> bool {
    0 <= i && i + pat.len() <= s.len() && s.subrange(i, i + pat.len()) == pat
}

/// Reads a single-quoted scalar body from position `i` (just past the
/// opening quote) to a closing quote followed by a newline; a doubled quote
/// stands for one quote in the value.  Returns the value and the position
/// after the newline.
pub open spec fn scan_quoted(s: Seq<char>, i: int) -> Option<(Seq<char>, int)>
    decreases s.len() - i when 0 <= i <= s.len()
{
    if i < 0 || i >= s.len() {
        None
    } else if s[i] == '\'' {
        if i + 1 < s.len() && s[i + 1] == '\'' {
            match scan_quoted(s, i + 2) {
                Some((v, j)) => Some((seq!['\''] + v, j)),
                None => None,
            }
        } else if i + 1 < s.len() && s[i + 1] == '\n' {
            Some((Seq::empty(), i + 2))
        } else {
            None
        }
    } else if s[i] == '\n' {
        None
    } else {
        match scan_quoted(s, i + 1) {
            Some((v, j)) => Some((seq![s[i]] + v, j)),
            None => None,
        }
    }
}

/// Reads a plain (unquoted) scalar: one or more characters up to the end of
/// its line.  Returns the value and the position after the newline.
pub open spec fn scan_plain(s: Seq<char>, i: int) -> Option<(Seq<char>, int)>
    decreases s.len() - i when 0 <= i <= s.len()
{
    if i < 0 || i >= s.len() {
        None
    } else if s[i] == '\n' {
        None
    } else if i + 1 < s.len() && s[i + 1] == '\n' {
        Some((seq![s[i]], i + 2))
    } else {
        match scan_plain(s, i + 1) {
            Some((v, j)) => Some((seq![s[i]] + v, j)),
            None => None,
        }
    }
}

/// The characters that may not open a plain scalar: the YAML indicator
/// characters, and white space.
pub open spec fn plain_indicator(c: char) -> bool {
    c == '[' || c == ']' || c == '{' || c == '}' || c == ',' || c == '#' || c == '&' || c == '*'
        || c == '!' || c == '|' || c == '>' || c == '\'' || c == '"' || c == '%' || c == '@' || c
        == '`' || c == ' ' || c == '\t' || c == '\r'
}

/// The plain words YAML reads as null or boolean values, never as strings.
pub open spec fn yaml_word(v: Seq<char>) -> bool {
    v == "~"@ || v == "null"@ || v == "Null"@ || v == "NULL"@ || v == "true"@ || v == "True"@
        || v == "TRUE"@ || v == "false"@ || v == "False"@ || v == "FALSE"@
}

/// Holds when a plain scalar carrying the text `v` stands for exactly the
/// string `v`: it opens with no indicator character, does not begin or end
/// with white space (which a YAML reader strips), holds no comment opener
/// and no mapping separator (which would change or break the reading of the
/// line), and is not a null or boolean word.  Any other plain text reads
/// differently, or not at all, so it is not accepted.
pub open spec fn plain_ok(v: Seq<char>) -> bool {
    &&& v.len() > 0
    &&& !plain_indicator(v[0])
    &&& v[v.len() - 1] != ' ' && v[v.len() - 1] != '\t' && v[v.len() - 1] != '\r'
    &&& forall|k: int|
        0 < k < v.len() && #[trigger] v[k] == '#' ==> v[k - 1] != ' ' && v[k - 1] != '\t'
    &&& forall|k: int|
        0 <= k < v.len() && #[trigger] v[k] == ':' ==> k + 1 < v.len() && v[k + 1] != ' ' && v[k
            + 1] != '\t'
    &&& !yaml_word(v)
}

/// Reads a scalar value: single-quoted where it opens with a quote, plain
/// otherwise.  The library always writes the quoted form; a plain form is
/// accepted only where it stands for exactly the same string, so files that
/// other writers left with plain scalars load, and a line whose reading
/// would differ is rejected.
pub open spec fn scan_value(s: Seq<char>, i: int) -> Option<(Seq<char>, int)> {
    if 0 <= i && i < s.len() && s[i] == '\'' {
        scan_quoted(s, i + 1)
    } else {
        match scan_plain(s, i) {
            Some((v, j)) => if plain_ok(v) {
                Some((v, j))
            } else {
                None
            },
            None => None,
        }
    }
}

/// Reads one entry: the label, then a scalar value on the same line.
pub open spec fn scan_entry(s: Seq<char>, i: int, label: Seq<char>) -> Option<(Seq<char>, int)> {
    if match_at(s, i, label) {
        scan_value(s, i + label.len())
    } else {
        None
    }
}

/// Reads the entries `li..` of a label table, in order, collecting the
/// values.
pub open spec fn scan_entries_from(s: Seq<char>, i: int, labels: Seq<Seq<char>>, li: int) -> Option<
    (Seq<Seq<char>>, int),
>
    decreases labels.len() - li,
{
    if li < 0 || li >= labels.len() {
        Some((Seq::empty(), i))
    } else {
        match scan_entry(s, i, labels[li]) {
            Some((v, j)) => match scan_entries_from(s, j, labels, li + 1) {
                Some((vs, k)) => Some((seq![v] + vs, k)),
                None => None,
            },
            None => None,
        }
    }
}

/// What a document means: the music database entry, the theme header, and
/// all theme entries in order, with nothing left over.  A document whose
/// music database is empty has no meaning either: a configuration never
/// exists with an empty path.  Any other text is rejected.
pub open spec fn parse_document(s: Seq<char>) -> Option<ConfigModel> {
    match scan_entry(s, 0, music_label()) {
        Some((mdb, i1)) => if mdb.len() > 0 && match_at(s, i1, theme_header()) {
            match scan_entries_from(s, i1 + theme_header().len(), theme_labels(), 0) {
                Some((vs, k)) => if k == s.len() {
                    Some(ConfigModel { music_database: mdb, theme: theme_of_values(vs) })
                } else {
                    None
                },
                None => None,
            }
        } else {
            None
        },
        None => None,
    }
}

/// Quoting a value one character longer appends that character's escape.
proof fn lemma_quote_push(a: Seq<char>, c: char)
    ensures
        quote_chars(a.push(c)) == quote_chars(a) + esc(c),
    decreases a.len(),
{
    if a.len() == 0 {
        assert(a.push(c).first() == c);
        assert(a.push(c).drop_first() =~= Seq::<char>::empty());
        assert(quote_chars(a) + esc(c) =~= esc(c) + quote_chars(Seq::<char>::empty()));
    } else {
        assert(a.push(c).first() == a.first());
        assert(a.push(c).drop_first() =~= a.drop_first().push(c));
        lemma_quote_push(a.drop_first(), c);
        assert(esc(a.first()) + (quote_chars(a.drop_first()) + esc(c)) =~= (esc(a.first())
            + quote_chars(a.drop_first())) + esc(c));
    }
}

/// Appends the single-quoted body for `v` to `out`.
fn push_quoted(out: &mut String, v: &str)
    ensures
        final(out)@ == old(out)@ + quote_chars(v@),
{
    let len = v.unicode_len();
    let mut k: usize = 0;
    proof {
        assert(v@.take(0) =~= Seq::<char>::empty());
        assert(old(out)@ + quote_chars(v@.take(0)) =~= old(out)@);
    }
    while k < len
        invariant
            k <= len,
            len == v@.len(),
            out@ == old(out)@ + quote_chars(v@.take(k as int)),
        decreases len - k,
    {
        let c = v.get_char(k);
        if c == '\'' {
            out.append("''");
        } else {
            out.append(v.substring_char(k, k + 1));
        }
        proof {
            assert(v@.take(k as int).push(v@[k as int]) =~= v@.take(k as int + 1));
            lemma_quote_push(v@.take(k as int), v@[k as int]);
            if v@[k as int] == '\'' {
                reveal_strlit("''");
                assert("''"@ =~= esc(v@[k as int]));
            } else {
                assert(v@.subrange(k as int, k as int + 1) =~= esc(v@[k as int]));
            }
            assert(out@ =~= old(out)@ + quote_chars(v@.take(k as int + 1)));
        }
        k += 1;
    }
    proof {
        assert(v@.take(len as int) =~= v@);
    }
}

/// Appends one entry line to `out`.
fn push_entry(out: &mut String, label: &str, v: &str)
    ensures
        final(out)@ == old(out)@ + entry_line(label@, v@),
{
    out.append(label);
    out.append("'");
    push_quoted(out, v);
    out.append("'\n");
    proof {
        reveal_strlit("'");
        reveal_strlit("'\n");
        assert("'"@ =~= seq!['\'']);
        assert("'\n"@ =~= seq!['\'', '\n']);
        assert(out@ =~= old(out)@ + entry_line(label@, v@));
    }
}

/// The theme labels as they are written, in order.
fn theme_label_table() -> (r: Vec<&'static str>)
    ensures
        r.deep_view() == theme_labels(),
{
    let mut v: Vec<&'static str> = Vec::new();
    v.push("  list_title_color: ");
    v.push("  list_title_page_color: ");
    v.push("  list_border_color: ");
    v.push("  list_music_color: ");
    v.push("  list_folder_color: ");
    v.push("  list_icon_color: ");
    v.push("  list_selected_color: ");
    v.push("  search_border_color: ");
    v.push("  search_icon_color: ");
    v.push("  search_font_color: ");
    v.push("  command_font_color: ");
    v.push("  command_border_color: ");
    v.push("  music_pic_color1: ");
    v.push("  music_pic_color2: ");
    v.push("  usage_color_left: ");
    v.push("  usage_color_right: ");
    v.push("  cut_off_rule_color: ");
    v.push("  play_music_list_title_color: ");
    v.push("  play_music_list_border_color: ");
    v.push("  play_music_list_id_color: ");
    v.push("  play_music_list_duration_color: ");
    v.push("  play_music_list_name_color: ");
    v.push("  play_music_list_artist_color: ");
    v.push("  play_music_list_album_color: ");
    v.push("  play_music_list_header_color: ");
    v.push("  playing_music_border_color: ");
    v.push("  playing_music_name_color: ");
    v.push("  volume_icon_color: ");
    v.push("  volume_value_color: ");
    v.push("  gauge_color: ");
    v.push("  gauge_border_color: ");
    v.push("  gauge_label_color: ");
    proof {
        assert(v.deep_view() =~= theme_labels());
    }
    v
}

/// The theme colors of `c`, in the order of the labels.
fn theme_value_table<'a>(c: &'a InitConfig) -> (r: Vec<&'a str>)
    ensures
        r.deep_view() == theme_values(c.theme@),
{
    let mut v: Vec<&'a str> = Vec::new();
    v.push(c.theme.list_title_color.as_str());
    v.push(c.theme.list_title_page_color.as_str());
    v.push(c.theme.list_border_color.as_str());
    v.push(c.theme.list_music_color.as_str());
    v.push(c.theme.list_folder_color.as_str());
    v.push(c.theme.list_icon_color.as_str());
    v.push(c.theme.list_selected_color.as_str());
    v.push(c.theme.search_border_color.as_str());
    v.push(c.theme.search_icon_color.as_str());
    v.push(c.theme.search_font_color.as_str());
    v.push(c.theme.command_font_color.as_str());
    v.push(c.theme.command_border_color.as_str());
    v.push(c.theme.music_pic_color1.as_str());
    v.push(c.theme.music_pic_color2.as_str());
    v.push(c.theme.usage_color_left.as_str());
    v.push(c.theme.usage_color_right.as_str());
    v.push(c.theme.cut_off_rule_color.as_str());
    v.push(c.theme.play_music_list_title_color.as_str());
    v.push(c.theme.play_music_list_border_color.as_str());
    v.push(c.theme.play_music_list_id_color.as_str());
    v.push(c.theme.play_music_list_duration_color.as_str());
    v.push(c.theme.play_music_list_name_color.as_str());
    v.push(c.theme.play_music_list_artist_color.as_str());
    v.push(c.theme.play_music_list_album_color.as_str());
    v.push(c.theme.play_music_list_header_color.as_str());
    v.push(c.theme.playing_music_border_color.as_str());
    v.push(c.theme.playing_music_name_color.as_str());
    v.push(c.theme.volume_icon_color.as_str());
    v.push(c.theme.volume_value_color.as_str());
    v.push(c.theme.gauge_color.as_str());
    v.push(c.theme.gauge_border_color.as_str());
    v.push(c.theme.gauge_label_color.as_str());
    proof {
        assert(v.deep_view() =~= theme_values(c.theme@));
    }
    v
}

/// Appends the lines for the entries `li..` of the table.
fn push_entries(out: &mut String, labels: &Vec<&str>, values: &Vec<&str>, li: usize)
    requires
        labels@.len() == values@.len(),
        li <= labels@.len(),
    ensures
        final(out)@ == old(out)@ + emit_entries(labels.deep_view(), values.deep_view(), li as int),
    decreases labels@.len() - li,
{
    if li < labels.len() {
        push_entry(out, labels[li], values[li]);
        push_entries(out, labels, values, li + 1);
        proof {
            assert(out@ =~= old(out)@ + emit_entries(
                labels.deep_view(),
                values.deep_view(),
                li as int,
            ));
        }
    } else {
        proof {
            assert(out@ =~= old(out)@ + emit_entries(
                labels.deep_view(),
                values.deep_view(),
                li as int,
            ));
        }
    }
}

/// Writes the full document text for `c`: exactly `emit_document(c@)`.
#[verifier::rlimit(50)]
pub fn emit_config(c: &InitConfig) -> (r: String)
    ensures
        r@ == emit_document(c@),
{
    let mut out = String::new();
    push_entry(&mut out, "music_database: ", c.music_database.as_str());
    out.append("theme:\n");
    let labels = theme_label_table();
    let values = theme_value_table(c);
    proof {
        assert(labels@.len() == labels.deep_view().len());
        assert(values@.len() == values.deep_view().len());
    }
    push_entries(&mut out, &labels, &values, 0);
    proof {
        assert(out@ =~= emit_document(c@));
    }
    out
}

/// Tells whether `pat` stands in `s` at position `i`.
fn match_at_exec(s: &str, len: usize, i: usize, pat: &str) -> (r: bool)
    requires
        len == s@.len(),
    ensures
        r == match_at(s@, i as int, pat@),
{
    let pl = pat.unicode_len();
    if i > len || len - i < pl {
        return false;
    }
    let mut j: usize = 0;
    while j < pl
        invariant
            j <= pl,
            pl == pat@.len(),
            len == s@.len(),
            i + pl <= len,
            forall|q: int| 0 <= q < j ==> s@[i + q] == pat@[q],
        decreases pl - j,
    {
        if s.get_char(i + j) != pat.get_char(j) {
            proof {
                if match_at(s@, i as int, pat@) {
                    let q = j as int;
                    assert(s@.subrange(i as int, i as int + pat@.len())[q] == pat@[q]);
                }
            }
            return false;
        }
        j += 1;
    }
    proof {
        assert(s@.subrange(i as int, i as int + pat@.len()) =~= pat@);
    }
    true
}

/// Reads a single-quoted scalar body starting at `i`, as `scan_quoted`.
fn scan_quoted_exec(s: &str, len: usize, i: usize) -> (r: Option<(String, usize)>)
    requires
        len == s@.len(),
        i <= len,
    ensures
        match r {
            Some(p) => scan_quoted(s@, i as int) == Some((p.0@, p.1 as int)) && p.1 <= len,
            None => scan_quoted(s@, i as int) is None,
        },
    decreases len - i,
{
    if i >= len {
        return None;
    }
    let c = s.get_char(i);
    if c == '\'' {
        if i + 1 < len {
            let c2 = s.get_char(i + 1);
            if c2 == '\'' {
                match scan_quoted_exec(s, len, i + 2) {
                    Some((v, j)) => {
                        let mut h = String::from_str("'");
                        h.append(v.as_str());
                        proof {
                            reveal_strlit("'");
                            assert(h@ =~= seq!['\''] + v@);
                        }
                        Some((h, j))
                    },
                    None => None,
                }
            } else if c2 == '\n' {
                Some((String::new(), i + 2))
            } else {
                None
            }
        } else {
            None
        }
    } else if c == '\n' {
        None
    } else {
        match scan_quoted_exec(s, len, i + 1) {
            Some((v, j)) => {
                let mut h = String::from_str(s.substring_char(i, i + 1));
                h.append(v.as_str());
                proof {
                    assert(s@.subrange(i as int, i as int + 1) =~= seq![s@[i as int]]);
                    assert(h@ =~= seq![s@[i as int]] + v@);
                }
                Some((h, j))
            },
            None => None,
        }
    }
}

/// Reads a plain scalar starting at `i`, as `scan_plain`.
fn scan_plain_exec(s: &str, len: usize, i: usize) -> (r: Option<(String, usize)>)
    requires
        len == s@.len(),
        i <= len,
    ensures
        match r {
            Some(p) => scan_plain(s@, i as int) == Some((p.0@, p.1 as int)) && p.1 <= len,
            None => scan_plain(s@, i as int) is None,
        },
    decreases len - i,
{
    if i >= len {
        return None;
    }
    let c = s.get_char(i);
    if c == '\n' {
        return None;
    }
    if i + 1 < len && s.get_char(i + 1) == '\n' {
        let h = String::from_str(s.substring_char(i, i + 1));
        proof {
            assert(s@.subrange(i as int, i as int + 1) =~= seq![s@[i as int]]);
        }
        Some((h, i + 2))
    } else {
        match scan_plain_exec(s, len, i + 1) {
            Some((v, j)) => {
                let mut h = String::from_str(s.substring_char(i, i + 1));
                h.append(v.as_str());
                proof {
                    assert(s@.subrange(i as int, i as int + 1) =~= seq![s@[i as int]]);
                    assert(h@ =~= seq![s@[i as int]] + v@);
                }
                Some((h, j))
            },
            None => None,
        }
    }
}

/// Tells whether a character may open a plain scalar.
fn plain_indicator_exec(c: char) -> (r: bool)
    ensures
        r == plain_indicator(c),
{
    c == '[' || c == ']' || c == '{' || c == '}' || c == ',' || c == '#' || c == '&' || c == '*'
        || c == '!' || c == '|' || c == '>' || c == '\'' || c == '"' || c == '%' || c == '@' || c
        == '`' || c == ' ' || c == '\t' || c == '\r'
}

/// Tells whether two texts hold the same characters.
fn str_eq_exec(v: &str, len: usize, w: &str) -> (r: bool)
    requires
        len == v@.len(),
    ensures
        r == (v@ == w@),
{
    let wl = w.unicode_len();
    if len != wl {
        return false;
    }
    let r = match_at_exec(v, len, 0, w);
    proof {
        if match_at(v@, 0, w@) {
            assert(v@.subrange(0, w@.len() as int) =~= v@);
        } else if v@ == w@ {
            assert(v@.subrange(0, w@.len() as int) =~= w@);
        }
    }
    r
}

/// Tells whether the text is one of the null or boolean words.
fn yaml_word_exec(v: &str, len: usize) -> (r: bool)
    requires
        len == v@.len(),
    ensures
        r == yaml_word(v@),
{
    str_eq_exec(v, len, "~") || str_eq_exec(v, len, "null") || str_eq_exec(v, len, "Null")
        || str_eq_exec(v, len, "NULL") || str_eq_exec(v, len, "true") || str_eq_exec(v, len, "True")
        || str_eq_exec(v, len, "TRUE") || str_eq_exec(v, len, "false") || str_eq_exec(
        v,
        len,
        "False",
    ) || str_eq_exec(v, len, "FALSE")
}

/// Tells whether a plain scalar holding this text means exactly this string
/// to a YAML reader.
fn plain_ok_exec(v: &str) -> (r: bool)
    ensures
        r == plain_ok(v@),
{
    let len = v.unicode_len();
    if len == 0 {
        return false;
    }
    if plain_indicator_exec(v.get_char(0)) {
        return false;
    }
    let last = v.get_char(len - 1);
    if last == ' ' || last == '\t' || last == '\r' {
        return false;
    }
    if yaml_word_exec(v, len) {
        return false;
    }
    let mut k: usize = 0;
    while k < len
        invariant
            k <= len,
            len == v@.len(),
            forall|q: int|
                0 < q < k && #[trigger] v@[q] == '#' ==> v@[q - 1] != ' ' && v@[q - 1] != '\t',
            forall|q: int|
                0 <= q < k && #[trigger] v@[q] == ':' ==> q + 1 < v@.len() && v@[q + 1] != ' '
                    && v@[q + 1] != '\t',
        decreases len - k,
    {
        let c = v.get_char(k);
        if c == '#' && k > 0 {
            let p = v.get_char(k - 1);
            if p == ' ' || p == '\t' {
                return false;
            }
        }
        if c == ':' {
            if k + 1 >= len {
                return false;
            }
            let n = v.get_char(k + 1);
            if n == ' ' || n == '\t' {
                return false;
            }
        }
        k += 1;
    }
    true
}

/// Reads a scalar value starting at `i`, as `scan_value`.
fn scan_value_exec(s: &str, len: usize, i: usize) -> (r: Option<(String, usize)>)
    requires
        len == s@.len(),
        i <= len,
    ensures
        match r {
            Some(p) => scan_value(s@, i as int) == Some((p.0@, p.1 as int)) && p.1 <= len,
            None => scan_value(s@, i as int) is None,
        },
{
    if i < len && s.get_char(i) == '\'' {
        scan_quoted_exec(s, len, i + 1)
    } else {
        match scan_plain_exec(s, len, i) {
            Some((v, j)) => if plain_ok_exec(v.as_str()) {
                Some((v, j))
            } else {
                None
            },
            None => None,
        }
    }
}

/// Reads one labelled entry starting at `i`, as `scan_entry`.
fn scan_entry_exec(s: &str, len: usize, i: usize, label: &str) -> (r: Option<(String, usize)>)
    requires
        len == s@.len(),
    ensures
        match r {
            Some(p) => scan_entry(s@, i as int, label@) == Some((p.0@, p.1 as int)) && p.1
                <= len,
            None => scan_entry(s@, i as int, label@) is None,
        },
{
    let ll = label.unicode_len();
    if !match_at_exec(s, len, i, label) {
        return None;
    }
    scan_value_exec(s, len, i + ll)
}

/// Reads the entries `li..` of the label table, as `scan_entries_from`.
fn scan_entries_exec(s: &str, len: usize, i: usize, labels: &Vec<&str>, li: usize) -> (r: Option<
    (Vec<String>, usize),
>)
    requires
        len == s@.len(),
        i <= len,
        li <= labels@.len(),
    ensures
        match r {
            Some(p) => scan_entries_from(s@, i as int, labels.deep_view(), li as int) == Some(
                (p.0.deep_view(), p.1 as int),
            ) && p.1 <= len,
            None => scan_entries_from(s@, i as int, labels.deep_view(), li as int) is None,
        },
    decreases labels@.len() - li,
{
    proof {
        assert(labels.deep_view().len() == labels@.len());
    }
    if li == labels.len() {
        let vs: Vec<String> = Vec::new();
        proof {
            assert(vs.deep_view() =~= Seq::<Seq<char>>::empty());
        }
        Some((vs, i))
    } else {
        proof {
            assert(labels.deep_view()[li as int] == labels@[li as int]@);
        }
        match scan_entry_exec(s, len, i, labels[li]) {
            None => None,
            Some((v, j)) => match scan_entries_exec(s, len, j, labels, li + 1) {
                None => None,
                Some((vs, k)) => {
                    let ghost pre = vs.deep_view();
                    let mut vs = vs;
                    vs.insert(0, v);
                    proof {
                        assert(vs.deep_view() =~= seq![v@] + pre);
                    }
                    Some((vs, k))
                },
            },
        }
    }
}

/// A successful scan yields one value per remaining label.
proof fn lemma_scan_entries_from_len(s: Seq<char>, i: int, labels: Seq<Seq<char>>, li: int)
    requires
        0 <= li <= labels.len(),
    ensures
        scan_entries_from(s, i, labels, li) matches Some(p) ==> p.0.len() == labels.len() - li,
    decreases labels.len() - li,
{
    if li < labels.len() && scan_entry(s, i, labels[li]) is Some {
        let j = scan_entry(s, i, labels[li])->Some_0.1;
        lemma_scan_entries_from_len(s, j, labels, li + 1);
    }
}

/// Reads document text back into a configuration.  Succeeds exactly on the
/// texts that `parse_document` gives a meaning, and fails with `ParseError`
/// on every other text: a missing or misplaced field, a malformed value, an
/// empty music database path, or trailing content.
#[verifier::rlimit(50)]
pub fn parse_config(s: &str) -> (r: Result<InitConfig, ConfigError>)
    ensures
        match r {
            Ok(c) => parse_document(s@) == Some(c@),
            Err(e) => e == ConfigError::ParseError && parse_document(s@) is None,
        },
{
    let len = s.unicode_len();
    let (mdb, i1) = match scan_entry_exec(s, len, 0, "music_database: ") {
        Some(p) => p,
        None => {
            return Err(ConfigError::ParseError);
        },
    };
    if mdb.as_str().is_empty() {
        return Err(ConfigError::ParseError);
    }
    if !match_at_exec(s, len, i1, "theme:\n") {
        return Err(ConfigError::ParseError);
    }
    proof {
        reveal_strlit("theme:\n");
    }
    let labels = theme_label_table();
    proof {
        assert(labels@.len() == labels.deep_view().len());
    }
    let (vs, k) = match scan_entries_exec(s, len, i1 + 7, &labels, 0) {
        Some(p) => p,
        None => {
            return Err(ConfigError::ParseError);
        },
    };
    if k != len {
        return Err(ConfigError::ParseError);
    }
    proof {
        lemma_scan_entries_from_len(s@, i1 as int + 7, theme_labels(), 0);
        assert(vs@.len() == vs.deep_view().len());
        assert(vs@.len() == 32);
    }
    let theme = InitTheme {
        list_title_color: vs[0].clone(),
        list_title_page_color: vs[1].clone(),
        list_border_color: vs[2].clone(),
        list_music_color: vs[3].clone(),
        list_folder_color: vs[4].clone(),
        list_icon_color: vs[5].clone(),
        list_selected_color: vs[6].clone(),
        search_border_color: vs[7].clone(),
        search_icon_color: vs[8].clone(),
        search_font_color: vs[9].clone(),
        command_font_color: vs[10].clone(),
        command_border_color: vs[11].clone(),
        music_pic_color1: vs[12].clone(),
        music_pic_color2: vs[13].clone(),
        usage_color_left: vs[14].clone(),
        usage_color_right: vs[15].clone(),
        cut_off_rule_color: vs[16].clone(),
        play_music_list_title_color: vs[17].clone(),
        play_music_list_border_color: vs[18].clone(),
        play_music_list_id_color: vs[19].clone(),
        play_music_list_duration_color: vs[20].clone(),
        play_music_list_name_color: vs[21].clone(),
        play_music_list_artist_color: vs[22].clone(),
        play_music_list_album_color: vs[23].clone(),
        play_music_list_header_color: vs[24].clone(),
        playing_music_border_color: vs[25].clone(),
        playing_music_name_color: vs[26].clone(),
        volume_icon_color: vs[27].clone(),
        volume_value_color: vs[28].clone(),
        gauge_color: vs[29].clone(),
        gauge_border_color: vs[30].clone(),
        gauge_label_color: vs[31].clone(),
    };
    let config = InitConfig { music_database: mdb, theme };
    proof {
        assert(config.theme@ =~= theme_of_values(vs.deep_view()));
        assert(config@ =~= parse_document(s@)->Some_0);
    }
    Ok(config)
}

/// Splits `s.skip(i) == a + b` into the two parts that stand in `s`.
proof fn lemma_skip_split(s: Seq<char>, i: int, a: Seq<char>, b: Seq<char>)
    requires
        0 <= i <= s.len(),
        s.skip(i) == a + b,
    ensures
        i + a.len() <= s.len(),
        s.subrange(i, i + a.len()) == a,
        s.skip(i + a.len()) == b,
{
    assert(s.skip(i).len() == s.len() - i);
    assert forall|k: int| 0 <= k < a.len() implies s.subrange(i, i + a.len())[k] == a[k] by {
        assert(s.skip(i)[k] == (a + b)[k]);
    }
    assert(s.subrange(i, i + a.len()) =~= a);
    assert forall|k: int| 0 <= k < b.len() implies s.skip(i + a.len())[k] == b[k] by {
        assert(s.skip(i)[a.len() + k] == (a + b)[a.len() + k]);
        assert((a + b)[a.len() + k] == b[k]);
        assert(s.skip(i)[a.len() + k] == s[i + a.len() + k]);
        assert(s.skip(i + a.len())[k] == s[i + a.len() + k]);
    }
    assert(s.skip(i + a.len()) =~= b);
}

/// Scanning recovers a quoted value from exactly the text that quoting it
/// produced.
#[verifier::rlimit(30)]
proof fn lemma_scan_quoted_round(s: Seq<char>, i: int, v: Seq<char>, rest: Seq<char>)
    requires
        0 <= i <= s.len(),
        line_free(v),
        s.skip(i) == quote_chars(v) + seq!['\'', '\n'] + rest,
    ensures
        scan_quoted(s, i) == Some((v, i + quote_chars(v).len() + 2)),
    decreases v.len(),
{
    let tail = s.skip(i);
    assert(forall|k: int| 0 <= k < tail.len() ==> tail[k] == s[i + k]);
    assert(tail.len() == quote_chars(v).len() + 2 + rest.len());
    if v.len() == 0 {
        assert(quote_chars(v).len() == 0);
        assert(i + 1 < s.len());
        assert(tail[0] == '\'');
        assert(tail[1] == '\n');
        assert(s[i] == '\'');
        assert(s[i + 1] == '\n');
        assert(scan_quoted(s, i) == Some((Seq::<char>::empty(), i + 2)));
        assert(v =~= Seq::<char>::empty());
    } else if v.first() == '\'' {
        assert(quote_chars(v) == seq!['\'', '\''] + quote_chars(v.drop_first()));
        assert(quote_chars(v).len() == 2 + quote_chars(v.drop_first()).len());
        assert(i + 1 < s.len());
        assert(tail[0] == '\'');
        assert(tail[1] == '\'');
        assert(s[i] == '\'');
        assert(s[i + 1] == '\'');
        assert(forall|k: int|
            0 <= k < v.drop_first().len() ==> #[trigger] v.drop_first()[k] == v[k + 1]);
        assert(s.skip(i) =~= seq!['\'', '\''] + (quote_chars(v.drop_first()) + seq!['\'', '\n']
            + rest));
        lemma_skip_split(
            s,
            i,
            seq!['\'', '\''],
            quote_chars(v.drop_first()) + seq!['\'', '\n'] + rest,
        );
        lemma_scan_quoted_round(s, i + 2, v.drop_first(), rest);
        assert(scan_quoted(s, i + 2) == Some(
            (v.drop_first(), i + 2 + quote_chars(v.drop_first()).len() + 2),
        ));
        assert(scan_quoted(s, i) == Some(
            (seq!['\''] + v.drop_first(), i + quote_chars(v).len() + 2),
        ));
        assert(seq!['\''] + v.drop_first() =~= v);
    } else {
        assert(quote_chars(v) == seq![v.first()] + quote_chars(v.drop_first()));
        assert(quote_chars(v).len() == 1 + quote_chars(v.drop_first()).len());
        assert(i < s.len());
        assert(tail[0] == v.first());
        assert(s[i] == v.first());
        assert(v.first() != '\n');
        assert(forall|k: int|
            0 <= k < v.drop_first().len() ==> #[trigger] v.drop_first()[k] == v[k + 1]);
        assert(s.skip(i) =~= seq![v.first()] + (quote_chars(v.drop_first()) + seq!['\'', '\n']
            + rest));
        lemma_skip_split(
            s,
            i,
            seq![v.first()],
            quote_chars(v.drop_first()) + seq!['\'', '\n'] + rest,
        );
        lemma_scan_quoted_round(s, i + 1, v.drop_first(), rest);
        assert(scan_quoted(s, i + 1) == Some(
            (v.drop_first(), i + 1 + quote_chars(v.drop_first()).len() + 2),
        ));
        assert(scan_quoted(s, i) == Some(
            (seq![v.first()] + v.drop_first(), i + quote_chars(v).len() + 2),
        ));
        assert(seq![v.first()] + v.drop_first() =~= v);
    }
}

/// Scanning recovers a labelled entry from exactly its emitted line.
proof fn lemma_scan_entry_round(
    s: Seq<char>,
    i: int,
    label: Seq<char>,
    v: Seq<char>,
    rest: Seq<char>,
)
    requires
        0 <= i <= s.len(),
        line_free(v),
        s.skip(i) == entry_line(label, v) + rest,
    ensures
        scan_entry(s, i, label) == Some((v, i + entry_line(label, v).len())),
{
    assert(s.skip(i) =~= label + (seq!['\''] + (quote_chars(v) + seq!['\'', '\n'] + rest)));
    lemma_skip_split(s, i, label, seq!['\''] + (quote_chars(v) + seq!['\'', '\n'] + rest));
    assert(match_at(s, i, label));
    lemma_skip_split(s, i + label.len(), seq!['\''], quote_chars(v) + seq!['\'', '\n'] + rest);
    assert(s.subrange(i + label.len(), i + label.len() + 1)[0] == s[i + label.len()]);
    assert(i + label.len() < s.len());
    assert(s[i + label.len()] == '\'');
    assert(scan_value(s, i + label.len()) == scan_quoted(s, i + label.len() + 1));
    lemma_scan_quoted_round(s, i + label.len() + 1, v, rest);
}

/// Scanning recovers every remaining entry from exactly the emitted lines.
proof fn lemma_scan_entries_round(
    s: Seq<char>,
    i: int,
    labels: Seq<Seq<char>>,
    values: Seq<Seq<char>>,
    li: int,
    rest: Seq<char>,
)
    requires
        0 <= i <= s.len(),
        0 <= li <= labels.len(),
        labels.len() == values.len(),
        forall|k: int| li <= k < values.len() ==> line_free(#[trigger] values[k]),
        s.skip(i) == emit_entries(labels, values, li) + rest,
    ensures
        scan_entries_from(s, i, labels, li) == Some(
            (values.skip(li), i + emit_entries(labels, values, li).len()),
        ),
    decreases labels.len() - li,
{
    if li >= labels.len() {
        assert(values.skip(li) =~= Seq::<Seq<char>>::empty());
    } else {
        assert(s.skip(i) =~= entry_line(labels[li], values[li]) + (emit_entries(
            labels,
            values,
            li + 1,
        ) + rest));
        lemma_scan_entry_round(
            s,
            i,
            labels[li],
            values[li],
            emit_entries(labels, values, li + 1) + rest,
        );
        lemma_skip_split(
            s,
            i,
            entry_line(labels[li], values[li]),
            emit_entries(labels, values, li + 1) + rest,
        );
        let j = i + entry_line(labels[li], values[li]).len();
        lemma_scan_entries_round(s, j, labels, values, li + 1, rest);
        assert(seq![values[li]] + values.skip(li + 1) =~= values.skip(li));
    }
}

/// Any value the quoted scanner returns holds no newline.
proof fn lemma_scan_quoted_values(s: Seq<char>, i: int)
    requires
        0 <= i <= s.len(),
    ensures
        scan_quoted(s, i) matches Some(p) ==> i + 2 <= p.1 <= s.len() && line_free(p.0),
    decreases s.len() - i,
{
    if i < s.len() && scan_quoted(s, i) is Some {
        if s[i] == '\'' {
            if i + 1 < s.len() && s[i + 1] == '\'' {
                lemma_scan_quoted_values(s, i + 2);
                let p2 = scan_quoted(s, i + 2)->Some_0;
                let v = seq!['\''] + p2.0;
                assert(forall|k: int| 0 <= k < v.len() ==> #[trigger] v[k] != '\n');
            } else {
                assert(line_free(Seq::<char>::empty()));
            }
        } else {
            lemma_scan_quoted_values(s, i + 1);
            let p2 = scan_quoted(s, i + 1)->Some_0;
            let v = seq![s[i]] + p2.0;
            assert(forall|k: int| 0 <= k < v.len() ==> #[trigger] v[k] != '\n');
        }
    }
}

/// Any value the plain scanner returns holds no newline.
proof fn lemma_scan_plain_values(s: Seq<char>, i: int)
    requires
        0 <= i <= s.len(),
    ensures
        scan_plain(s, i) matches Some(p) ==> i + 2 <= p.1 <= s.len() && line_free(p.0),
    decreases s.len() - i,
{
    if i < s.len() && scan_plain(s, i) is Some && s[i] != '\n' {
        if i + 1 < s.len() && s[i + 1] == '\n' {
            let v = seq![s[i]];
            assert(forall|k: int| 0 <= k < v.len() ==> #[trigger] v[k] != '\n');
        } else {
            lemma_scan_plain_values(s, i + 1);
            let p2 = scan_plain(s, i + 1)->Some_0;
            let v = seq![s[i]] + p2.0;
            assert(forall|k: int| 0 <= k < v.len() ==> #[trigger] v[k] != '\n');
        }
    }
}

/// Any value the scalar scanner returns holds no newline.
proof fn lemma_scan_value_values(s: Seq<char>, i: int)
    requires
        0 <= i <= s.len(),
    ensures
        scan_value(s, i) matches Some(p) ==> i <= p.1 <= s.len() && line_free(p.0),
{
    if i < s.len() && s[i] == '\'' {
        lemma_scan_quoted_values(s, i + 1);
    } else {
        lemma_scan_plain_values(s, i);
    }
}

/// Every value the entry scanner collects holds no newline.
proof fn lemma_scan_entries_values(s: Seq<char>, labels: Seq<Seq<char>>, li: int, i: int)
    requires
        0 <= i <= s.len(),
        0 <= li <= labels.len(),
    ensures
        scan_entries_from(s, i, labels, li) matches Some(p) ==> i <= p.1 <= s.len() && (
        forall|q: int| 0 <= q < p.0.len() ==> line_free(#[trigger] p.0[q])),
    decreases labels.len() - li,
{
    if li < labels.len() && scan_entries_from(s, i, labels, li) is Some {
        let p1 = scan_entry(s, i, labels[li])->Some_0;
        lemma_scan_value_values(s, i + labels[li].len());
        lemma_scan_entries_values(s, labels, li + 1, p1.1);
        let p2 = scan_entries_from(s, p1.1, labels, li + 1)->Some_0;
        let p = scan_entries_from(s, i, labels, li)->Some_0;
        assert(p.0 =~= seq![p1.0] + p2.0);
        assert forall|q: int| 0 <= q < p.0.len() implies line_free(#[trigger] p.0[q]) by {
            if q > 0 {
                assert(p.0[q] == p2.0[q - 1]);
            } else {
                assert(p.0[0] == p1.0);
            }
        }
    }
}

/// A successfully loaded configuration is sound: its music database path is
/// non-empty, no field holds a newline, and writing it out yields a text
/// that loads back to the very same configuration.
#[verifier::rlimit(50)]
pub proof fn lemma_parse_normalizes(s: Seq<char>)
    ensures
        parse_document(s) matches Some(c) ==> c.music_database.len() > 0 && model_line_free(c)
            && parse_document(emit_document(c)) == Some(c),
{
    if parse_document(s) is Some {
        let c = parse_document(s)->Some_0;
        let p0 = scan_entry(s, 0, music_label())->Some_0;
        lemma_scan_value_values(s, music_label().len() as int);
        let i1 = p0.1;
        let i2 = i1 + theme_header().len();
        assert(match_at(s, i1, theme_header()));
        assert(0 <= i2 <= s.len());
        lemma_scan_entries_values(s, theme_labels(), 0, i2);
        let p1 = scan_entries_from(s, i2, theme_labels(), 0)->Some_0;
        lemma_scan_entries_from_len(s, i2, theme_labels(), 0);
        assert(theme_values(c.theme) =~= p1.0);
        assert forall|k: int|
            0 <= k < theme_values(c.theme).len() implies line_free(
            #[trigger] theme_values(c.theme)[k],
        ) by {
            assert(theme_values(c.theme)[k] == p1.0[k]);
        }
        lemma_document_round_trip(c);
    }
}

/// Round trip: the text written for a configuration parses back to exactly
/// that configuration, for every configuration whose music database path is
/// non-empty and none of whose fields holds a newline.
#[verifier::rlimit(50)]
pub proof fn lemma_document_round_trip(c: ConfigModel)
    requires
        c.music_database.len() > 0,
        model_line_free(c),
    ensures
        parse_document(emit_document(c)) == Some(c),
{
    let s = emit_document(c);
    let e0 = entry_line(music_label(), c.music_database);
    let body = emit_entries(theme_labels(), theme_values(c.theme), 0);
    let rest0 = theme_header() + body;
    assert(s.skip(0) =~= e0 + rest0);
    lemma_scan_entry_round(s, 0, music_label(), c.music_database, rest0);
    lemma_skip_split(s, 0, e0, rest0);
    let i1 = e0.len() as int;
    assert(s.skip(i1) =~= theme_header() + body);
    lemma_skip_split(s, i1, theme_header(), body);
    assert(match_at(s, i1, theme_header()));
    let i2 = i1 + theme_header().len();
    assert(s.skip(i2) =~= body + Seq::<char>::empty());
    lemma_scan_entries_round(s, i2, theme_labels(), theme_values(c.theme), 0, Seq::empty());
    assert(theme_values(c.theme).skip(0) =~= theme_values(c.theme));
    assert(theme_of_values(theme_values(c.theme)) =~= c.theme);
    assert(parse_document(s) == Some(c)) by {
        assert(ConfigModel {
            music_database: c.music_database,
            theme: theme_of_values(theme_values(c.theme)),
        } =~= c);
    }
}

} // verus!
