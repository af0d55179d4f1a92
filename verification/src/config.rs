//! The configuration file: lines of `key=value`, `#` starts a comment.

use crate::text::{
    chars_of, find_in, first_index, lemma_contains_in_parts, lemma_first_index_absent,
    lemma_first_index_unique, lemma_split_on_last_piece, split_on,
};
use vstd::hash_map::StringHashMap;
use vstd::prelude::*;
use vstd::string::StrSliceExecFns;

verus! {

/// The key whose value is the media file handed to the renderer.
pub open spec fn file_key() -> Seq<char> {
    "file"@
}

/// What is left of a line once the comment, if any, is cut off.
pub open spec fn strip_comment(line: Seq<char>) -> Seq<char> {
    line.take(first_index(line, '#') as int)
}

/// The pair a line stands for: the text before the first `=` of the
/// uncommented part and the text after it, both non-empty. Any other line
/// stands for nothing.
pub open spec fn parse_line(line: Seq<char>) -> Option<(Seq<char>, Seq<char>)> {
    let body = strip_comment(line);
    let eq = first_index(body, '=') as int;
    if 0 < eq && eq + 1 < body.len() {
        Some((body.take(eq), body.skip(eq + 1)))
    } else {
        None
    }
}

/// The mapping after one more line: a pair replaces what its key had.
pub open spec fn absorb_line(m: Map<Seq<char>, Seq<char>>, line: Seq<char>) -> Map<
    Seq<char>,
    Seq<char>,
> {
    match parse_line(line) {
        Some((key, value)) => m.insert(key, value),
        None => m,
    }
}

/// The mapping after the given lines, taken in order.
pub open spec fn absorb_lines(m: Map<Seq<char>, Seq<char>>, lines: Seq<Seq<char>>) -> Map<
    Seq<char>,
    Seq<char>,
>
    decreases lines.len(),
{
    if lines.len() == 0 {
        m
    } else {
        absorb_lines(absorb_line(m, lines[0]), lines.skip(1))
    }
}

/// The mapping that a whole configuration text stands for.
pub open spec fn parse_text(text: Seq<char>) -> Map<Seq<char>, Seq<char>> {
    absorb_lines(Map::empty(), split_on(text, '\n'))
}

/// A parsed configuration: keys and their values, rebuilt in full by every
/// load.
pub struct Configuration {
    entries: StringHashMap<String>,
}

impl View for Configuration {
    type V = Map<Seq<char>, Seq<char>>;

    closed spec fn view(&self) -> Map<Seq<char>, Seq<char>> {
        self.entries@.map_values(|v: String| v@)
    }
}

impl Configuration {
    /// A configuration without entries.
    pub fn new() -> (config: Configuration)
        ensures
            config@ == Map::<Seq<char>, Seq<char>>::empty(),
    {
        let config = Configuration { entries: StringHashMap::new() };
        assert(config@ =~= Map::<Seq<char>, Seq<char>>::empty());
        config
    }

    /// Sets `key` to `value`, replacing what `key` had before.
    pub fn insert(&mut self, key: String, value: String)
        ensures
            final(self)@ == old(self)@.insert(key@, value@),
    {
        self.entries.insert(key, value);
        assert(self@ =~= old(self)@.insert(key@, value@));
    }

    /// The value of `key`, if it has one.
    pub fn get(&self, key: &str) -> (value: Option<&String>)
        ensures
            match value {
                Some(v) => self@.contains_key(key@) && v@ == self@[key@],
                None => !self@.contains_key(key@),
            },
    {
        self.entries.get(key)
    }

    /// Whether `key` has a value.
    pub fn contains_key(&self, key: &str) -> (present: bool)
        ensures
            present == self@.contains_key(key@),
    {
        self.entries.contains_key(key)
    }

    /// The number of keys.
    pub fn len(&self) -> (n: usize)
        ensures
            n == self@.len(),
    {
        assert(self@.dom() =~= self.entries@.dom());
        self.entries.len()
    }

    /// Whether there is no key at all.
    pub fn is_empty(&self) -> (empty: bool)
        ensures
            empty == (self@.len() == 0),
    {
        self.len() == 0
    }

    /// The media file that the configuration names, if it names one.
    pub fn file(&self) -> (value: Option<&String>)
        ensures
            match value {
                Some(v) => self@.contains_key(file_key()) && v@ == self@[file_key()],
                None => !self@.contains_key(file_key()),
            },
    {
        self.get("file")
    }
}

/// Knows where the configuration file is and what the last load found in it.
pub struct ConfigStore {
    path: String,
    snapshot: Configuration,
}

/// The mathematical value of a [`ConfigStore`].
pub struct ConfigStoreView {
    pub path: Seq<char>,
    pub entries: Map<Seq<char>, Seq<char>>,
}

impl View for ConfigStore {
    type V = ConfigStoreView;

    closed spec fn view(&self) -> ConfigStoreView {
        ConfigStoreView { path: self.path@, entries: self.snapshot@ }
    }
}

impl ConfigStore {
    /// A store for the file at `path`, with nothing loaded yet.
    pub fn new(path: String) -> (store: ConfigStore)
        ensures
            store@.path == path@,
            store@.entries == Map::<Seq<char>, Seq<char>>::empty(),
    {
        ConfigStore { path, snapshot: Configuration::new() }
    }

    /// The path of the configuration file.
    pub fn path(&self) -> (path: &String)
        ensures
            path@ == self@.path,
    {
        &self.path
    }

    /// What the last load found.
    pub fn snapshot(&self) -> (snapshot: &Configuration)
        ensures
            snapshot@ == self@.entries,
    {
        &self.snapshot
    }

    /// Replaces the snapshot by what `text`, the content of the file, holds.
    /// Nothing of the earlier snapshot is kept.
    pub fn load(&mut self, text: &str)
        ensures
            final(self)@.path == old(self)@.path,
            final(self)@.entries == parse_text(text@),
    {
        self.snapshot = parse_config(text);
    }
}

/// Reads a configuration text. Lines are separated by `\n`; what follows the
/// first `#` of a line is dropped; the rest is cut at its first `=`, and where
/// both sides are non-empty they are a key and its value. Every other line is
/// passed over, and of two lines with one key the later one counts.
pub fn parse_config(text: &str) -> (config: Configuration)
    ensures
        config@ == parse_text(text@),
{
    let chars = chars_of(text);
    let n = chars.len();
    let mut config = Configuration::new();
    let mut pos: usize = 0;
    let mut done = false;
    assert(text@.skip(0) =~= text@);
    while !done
        invariant
            chars@ == text@,
            n == chars.len(),
            pos <= n,
            !done ==> parse_text(text@) == absorb_lines(
                config@,
                split_on(text@.skip(pos as int), '\n'),
            ),
            done ==> config@ == parse_text(text@),
        decreases n - pos + (if done { 0int } else { 1int }),
    {
        let eol = find_in(&chars, pos, n, '\n');
        let hash = find_in(&chars, pos, eol, '#');
        let eq = find_in(&chars, pos, hash, '=');
        let ghost rest = text@.skip(pos as int);
        let ghost line = text@.subrange(pos as int, eol as int);
        let ghost before = config@;
        proof {
            assert(chars@.subrange(pos as int, n as int) =~= rest);
            assert(strip_comment(line) =~= text@.subrange(pos as int, hash as int));
        }
        if pos < eq && eq < hash && eq + 1 < hash {
            let key = text.substring_char(pos, eq);
            let value = text.substring_char(eq + 1, hash);
            proof {
                let body = strip_comment(line);
                assert(body.take(eq - pos) =~= key@);
                assert(body.skip(eq - pos + 1) =~= value@);
            }
            config.insert(key.to_owned(), value.to_owned());
        }
        assert(config@ == absorb_line(before, line));
        if eol < n {
            proof {
                assert(rest.take(eol - pos) =~= line);
                assert(rest.skip(eol - pos + 1) =~= text@.skip(eol + 1));
                let tail = split_on(text@.skip(eol + 1), '\n');
                assert((seq![line] + tail).skip(1) =~= tail);
            }
            pos = eol + 1;
        } else {
            proof {
                assert(rest =~= line);
                lemma_absorb_one_line(before, line);
            }
            done = true;
        }
    }
    config
}

/// One line alone is absorbed as it is.
proof fn lemma_absorb_one_line(m: Map<Seq<char>, Seq<char>>, line: Seq<char>)
    ensures
        absorb_lines(m, seq![line]) == absorb_line(m, line),
{
    assert(seq![line].skip(1) =~= Seq::<Seq<char>>::empty());
    assert(absorb_lines(m, seq![line]) == absorb_lines(absorb_line(m, line), seq![line].skip(1)));
}

/// A comment changes nothing: a line stands for what it stands for without
/// its first `#` and all that follows.
pub proof fn lemma_comment_is_dropped(body: Seq<char>, comment: Seq<char>)
    requires
        !body.contains('#'),
    ensures
        strip_comment(body + seq!['#'] + comment) == body,
        parse_line(body + seq!['#'] + comment) == parse_line(body),
{
    let line = body + seq!['#'] + comment;
    assert forall|j: int| 0 <= j < body.len() implies line[j] != '#' by {
        assert(body.contains(body[j]));
    }
    lemma_first_index_unique(line, '#', body.len() as int);
    assert(line.take(body.len() as int) =~= body);
    lemma_first_index_absent(body, '#');
    assert(body.take(body.len() as int) =~= body);
}

/// A line `key=value` stands for exactly that pair, where the key is not
/// empty and holds neither `#` nor `=`, and the value is not empty and holds
/// no `#`.
pub proof fn lemma_key_value_line(key: Seq<char>, value: Seq<char>)
    requires
        key.len() > 0,
        value.len() > 0,
        !key.contains('#'),
        !key.contains('='),
        !value.contains('#'),
    ensures
        parse_line(key + seq!['='] + value) == Some((key, value)),
{
    let line = key + seq!['='] + value;
    assert(!seq!['='].contains('#'));
    lemma_contains_in_parts(key, seq!['='], '#');
    lemma_contains_in_parts(key + seq!['='], value, '#');
    lemma_first_index_absent(line, '#');
    assert(strip_comment(line) =~= line);
    lemma_first_index_absent(key, '=');
    assert forall|j: int| 0 <= j < key.len() implies line[j] != '=' by {
        assert(key.contains(key[j]));
    }
    lemma_first_index_unique(line, '=', key.len() as int);
    assert(line.take(key.len() as int) =~= key);
    assert(line.skip(key.len() as int + 1) =~= value);
}

/// A line without `=` before its first `#` stands for nothing: it leaves
/// every mapping as it is.
pub proof fn lemma_line_without_equals(m: Map<Seq<char>, Seq<char>>, line: Seq<char>)
    requires
        !strip_comment(line).contains('='),
    ensures
        parse_line(line) is None,
        absorb_line(m, line) == m,
{
    lemma_first_index_absent(strip_comment(line), '=');
}

/// Lines are taken in order: what the lines up to the last one stand for,
/// with the last line absorbed into it.
pub proof fn lemma_absorb_last_line(
    m: Map<Seq<char>, Seq<char>>,
    lines: Seq<Seq<char>>,
    line: Seq<char>,
)
    ensures
        absorb_lines(m, lines.push(line)) == absorb_line(absorb_lines(m, lines), line),
    decreases lines.len(),
{
    if lines.len() == 0 {
        assert(lines.push(line) =~= seq![line]);
        lemma_absorb_one_line(m, line);
    } else {
        assert(lines.push(line).skip(1) =~= lines.skip(1).push(line));
        lemma_absorb_last_line(absorb_line(m, lines[0]), lines.skip(1), line);
    }
}

/// The last line wins: a text with one more line stands for what the text
/// stood for, with the pair of the new line put in place of what its key
/// had.
pub proof fn lemma_last_line_wins(text: Seq<char>, line: Seq<char>)
    requires
        !line.contains('\n'),
    ensures
        parse_text(text + seq!['\n'] + line) == absorb_line(parse_text(text), line),
{
    lemma_split_on_last_piece(text, line, '\n');
    lemma_absorb_last_line(Map::empty(), split_on(text, '\n'), line);
}

/// A text that is one line `key=value` stands for that one pair.
pub proof fn lemma_single_pair(key: Seq<char>, value: Seq<char>)
    requires
        key.len() > 0,
        value.len() > 0,
        !key.contains('#'),
        !key.contains('='),
        !key.contains('\n'),
        !value.contains('#'),
        !value.contains('\n'),
    ensures
        parse_text(key + seq!['='] + value) == Map::<Seq<char>, Seq<char>>::empty().insert(
            key,
            value,
        ),
{
    let line = key + seq!['='] + value;
    lemma_key_value_line(key, value);
    assert(!seq!['='].contains('\n'));
    lemma_contains_in_parts(key, seq!['='], '\n');
    lemma_contains_in_parts(key + seq!['='], value, '\n');
    lemma_first_index_absent(line, '\n');
    lemma_absorb_one_line(Map::empty(), line);
}

} // verus!
