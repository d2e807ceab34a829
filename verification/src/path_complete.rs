//! Path suggestions for a prompt that asks for a file.
//!
//! The completer never touches the file system. It says which directories to
//! read for an input, and the host hands back what it found there.

use crate::error::{FailureKind, IoFailure};
use crate::text::texts_of;
use vstd::prelude::*;
use vstd::string::*;

verus! {

/// The most suggestions that are kept for one input.
pub const SUGGESTION_LIMIT: usize = 15;

/// One entry of a directory, as the host found it.
#[derive(Clone, Debug, PartialEq, Eq)]
pub struct DirEntry {
    /// The entry's path: the directory read, and the entry's name in it.
    pub path: String,
    /// Whether the entry is itself a directory.
    pub is_dir: bool,
}

impl DirEntry {
    /// The entry as it is suggested: a directory ends with a slash.
    pub open spec fn shown(self) -> Seq<char> {
        if self.is_dir {
            self.path@.push('/')
        } else {
            self.path@
        }
    }

    /// The entry as it is suggested.
    pub fn shown_path(&self) -> (text: String)
        ensures
            text@ == self.shown(),
    {
        let mut text = self.path.clone();
        if self.is_dir {
            proof {
                reveal_strlit("/");
            }
            text.append("/");
            assert(text@ =~= self.path@.push('/'));
        }
        text
    }
}

/// The directories to read for an input: `first`, and `fallback` where
/// `first` does not exist.
#[derive(Clone, Debug, PartialEq, Eq)]
pub struct ScanDirs {
    pub first: String,
    pub fallback: String,
}

/// The text ends with a slash.
pub open spec fn ends_with_slash(text: Seq<char>) -> bool {
    text.len() > 0 && text.last() == '/'
}

/// The directory that stands for an input's parent: the parent itself, or the
/// current directory where the input has none or an empty one.
pub open spec fn fallback_dir(parent: Option<Seq<char>>) -> Seq<char> {
    match parent {
        Some(dir) => if dir.len() == 0 {
            seq!['.']
        } else {
            dir
        },
        None => seq!['.'],
    }
}

/// The directory to read first: the input itself where it names a directory
/// by its final slash, else the fallback.
pub open spec fn first_dir(input: Seq<char>, parent: Option<Seq<char>>) -> Seq<char> {
    if ends_with_slash(input) {
        input
    } else {
        fallback_dir(parent)
    }
}

/// `path` continues `input`: it starts with it and is longer.
pub open spec fn continues(input: Seq<char>, path: Seq<char>) -> bool {
    input.is_prefix_of(path) && path.len() != input.len()
}

/// The test that a suggestion for `input` passes.
pub open spec fn continuing(input: Seq<char>) -> spec_fn(Seq<char>) -> bool {
    |path: Seq<char>| continues(input, path)
}

/// The entries as they are suggested, in the order found.
pub open spec fn shown_entries(entries: Seq<DirEntry>) -> Seq<Seq<char>> {
    entries.map_values(|entry: DirEntry| entry.shown())
}

/// The suggestions for `input` among `entries`: the first
/// [`SUGGESTION_LIMIT`] entries that continue the input, in the order found.
pub open spec fn suggestions(input: Seq<char>, entries: Seq<DirEntry>) -> Seq<Seq<char>> {
    let matching = shown_entries(entries).filter(continuing(input));
    if matching.len() <= SUGGESTION_LIMIT {
        matching
    } else {
        matching.take(SUGGESTION_LIMIT as int)
    }
}

/// Every text starts with `prefix`.
pub open spec fn is_common_prefix(prefix: Seq<char>, texts: Seq<Seq<char>>) -> bool {
    forall|i: int| 0 <= i < texts.len() ==> prefix.is_prefix_of(#[trigger] texts[i])
}

/// `prefix` is the longest text that every one of `texts` starts with; of no
/// texts at all it is the empty text.
pub open spec fn is_longest_common_prefix(prefix: Seq<char>, texts: Seq<Seq<char>>) -> bool {
    if texts.len() == 0 {
        prefix.len() == 0
    } else {
        &&& is_common_prefix(prefix, texts)
        &&& forall|other: Seq<char>| #[trigger]
            is_common_prefix(other, texts) ==> other.is_prefix_of(prefix)
    }
}

/// There is one longest common prefix: two texts that both are the longest
/// common prefix of the same texts are equal.
pub proof fn lemma_longest_common_prefix_unique(
    a: Seq<char>,
    b: Seq<char>,
    texts: Seq<Seq<char>>,
)
    requires
        is_longest_common_prefix(a, texts),
        is_longest_common_prefix(b, texts),
    ensures
        a == b,
{
    if texts.len() > 0 {
        assert(a.is_prefix_of(b));
        assert(b.is_prefix_of(a));
    }
    assert(a =~= b);
}

/// The state of a completer, as contracts see it.
pub struct CompleterView {
    /// The input that the suggestions were last asked for.
    pub input: Seq<char>,
    /// The suggestions.
    pub paths: Seq<Seq<char>>,
    /// The completion offered where no suggestion is highlighted.
    pub lcp: Seq<char>,
}

/// Suggests paths that continue what the user has typed.
#[derive(Clone, Debug)]
pub struct FilePathCompleter {
    input: String,
    paths: Vec<String>,
    lcp: String,
}

impl View for FilePathCompleter {
    type V = CompleterView;

    closed spec fn view(&self) -> CompleterView {
        CompleterView { input: self.input@, paths: texts_of(self.paths@), lcp: self.lcp@ }
    }
}

/// The characters of a text, one by one.
fn chars_of(text: &str) -> (chars: Vec<char>)
    ensures
        chars@ == text@,
{
    let mut chars: Vec<char> = Vec::new();
    for c in it: text.chars()
        invariant
            chars@ == it.seq().take(it.index()),
            it.seq() == text@,
    {
        chars.push(c);
    }
    chars
}

/// Whether `path` starts with `input` and is longer.
fn is_continuation(input: &Vec<char>, path: &Vec<char>) -> (answer: bool)
    ensures
        answer == continues(input@, path@),
{
    if path.len() <= input.len() {
        return false;
    }
    let mut i: usize = 0;
    while i < input.len()
        invariant
            i <= input.len() < path.len(),
            forall|t: int| 0 <= t < i ==> input@[t] == path@[t],
        decreases input.len() - i,
    {
        if input[i] != path[i] {
            assert(!(input@ =~= path@.subrange(0, input@.len() as int))) by {
                assert(path@.subrange(0, input@.len() as int)[i as int] == path@[i as int]);
            }
            return false;
        }
        i += 1;
    }
    assert(input@ =~= path@.subrange(0, input@.len() as int));
    true
}

/// The length of the longest common start of `a` and `b` that is no longer
/// than `limit`.
fn common_len(a: &Vec<char>, b: &Vec<char>, limit: usize) -> (len: usize)
    requires
        limit <= a.len(),
    ensures
        len <= limit,
        len <= b.len(),
        forall|t: int| 0 <= t < len ==> a@[t] == b@[t],
        len == limit || len == b.len() || a@[len as int] != b@[len as int],
{
    let mut len: usize = 0;
    while len < limit && len < b.len() && a[len] == b[len]
        invariant
            len <= limit <= a.len(),
            len <= b.len(),
            forall|t: int| 0 <= t < len ==> a@[t] == b@[t],
        decreases limit - len,
    {
        len += 1;
    }
    len
}

/// The wrapped call is [`std::path::Path::parent`], on the path that `input`
/// spells. Nothing is claimed of what it returns: where a parent ends depends
/// on the platform's separators.
#[verifier::external_body]
fn parent_of(input: &str) -> (parent: Option<String>) {
    match std::path::Path::new(input).parent() {
        Some(dir) => Some(dir.to_string_lossy().into_owned()),
        None => None,
    }
}

impl Default for FilePathCompleter {
    fn default() -> (completer: FilePathCompleter)
        ensures
            completer@.input.len() == 0,
            completer@.paths.len() == 0,
            completer@.lcp.len() == 0,
    {
        FilePathCompleter::new()
    }
}

impl FilePathCompleter {
    /// A completer that has seen no input yet.
    pub fn new() -> (completer: FilePathCompleter)
        ensures
            completer@.input.len() == 0,
            completer@.paths.len() == 0,
            completer@.lcp.len() == 0,
    {
        FilePathCompleter { input: String::new(), paths: Vec::new(), lcp: String::new() }
    }

    /// The directories to read, given what the platform says the input's
    /// parent is.
    pub fn choose_scan_dirs(input: &str, parent: Option<String>) -> (dirs: ScanDirs)
        ensures
            dirs.fallback@ == fallback_dir(
                match parent {
                    Some(dir) => Some(dir@),
                    None => None,
                },
            ),
            dirs.first@ == first_dir(
                input@,
                match parent {
                    Some(dir) => Some(dir@),
                    None => None,
                },
            ),
    {
        proof {
            reveal_strlit(".");
        }
        let fallback = match parent {
            Some(dir) => {
                if dir.as_str().unicode_len() == 0 {
                    String::from_str(".")
                } else {
                    dir
                }
            },
            None => String::from_str("."),
        };
        assert(fallback@ =~= fallback_dir(
            match parent {
                Some(dir) => Some(dir@),
                None => None,
            },
        ));
        let chars = chars_of(input);
        let first = if chars.len() > 0 && chars[chars.len() - 1] == '/' {
            String::from_str(input)
        } else {
            fallback.clone()
        };
        ScanDirs { first, fallback }
    }

    /// The directories to read for an input. Whatever the platform takes the
    /// input's parent to be, an input that ends with a slash is read itself,
    /// any other input is read at the fallback, and the fallback is never the
    /// empty path.
    pub fn scan_dirs(input: &str) -> (dirs: ScanDirs)
        ensures
            dirs.first@ == if ends_with_slash(input@) {
                input@
            } else {
                dirs.fallback@
            },
            dirs.fallback@.len() > 0,
    {
        let parent = parent_of(input);
        Self::choose_scan_dirs(input, parent)
    }

    /// Whether a directory that could not be read is to be replaced by the
    /// fallback: only where it does not exist.
    pub fn falls_back(failure: &IoFailure) -> (answer: bool)
        ensures
            answer == (failure.kind == FailureKind::NotFound),
    {
        failure.is_not_found()
    }

    /// Takes note of a new input. The result says whether the input differs
    /// from the last one, so that the directories have to be read again; the
    /// suggestions for the old input are then forgotten.
    pub fn update_input(&mut self, input: &str) -> (changed: bool)
        ensures
            changed == (input@ != old(self)@.input),
            !changed ==> final(self)@ == old(self)@,
            changed ==> final(self)@ == (CompleterView {
                input: input@,
                paths: Seq::empty(),
                lcp: old(self)@.lcp,
            }),
    {
        let given = String::from_str(input);
        if given == self.input {
            return false;
        }
        self.input = given;
        self.paths.clear();
        assert(texts_of(self.paths@) =~= Seq::<Seq<char>>::empty());
        true
    }

    /// Replaces the suggestions by those that `entries` hold for the current
    /// input, and the completion by their longest common prefix.
    pub fn update_paths(&mut self, entries: &Vec<DirEntry>)
        ensures
            final(self)@.input == old(self)@.input,
            final(self)@.paths == suggestions(old(self)@.input, entries@),
            is_longest_common_prefix(final(self)@.lcp, final(self)@.paths),
    {
        let input = chars_of(self.input.as_str());
        let ghost shown = shown_entries(entries@);
        let ghost test = continuing(input@);
        let mut found: Vec<String> = Vec::new();
        let mut idx: usize = 0;
        assert(shown.take(0) =~= Seq::<Seq<char>>::empty());
        assert(texts_of(found@) =~= shown.take(0).filter(test)) by {
            reveal(Seq::filter);
        }
        while idx < entries.len() && found.len() < SUGGESTION_LIMIT
            invariant
                idx <= entries.len(),
                found.len() <= SUGGESTION_LIMIT,
                input@ == self.input@,
                shown == shown_entries(entries@),
                test == continuing(input@),
                texts_of(found@) == shown.take(idx as int).filter(test),
            decreases entries.len() - idx,
        {
            let text = entries[idx].shown_path();
            let path = chars_of(text.as_str());
            proof {
                assert(shown.take(idx + 1) =~= shown.take(idx as int).push(text@));
                shown.take(idx as int).lemma_filter_push(text@, test);
            }
            if is_continuation(&input, &path) {
                assert(texts_of(found@.push(text)) =~= texts_of(found@).push(text@));
                found.push(text);
            }
            idx += 1;
        }
        proof {
            let rest = shown.skip(idx as int);
            assert(shown =~= shown.take(idx as int) + rest);
            Seq::filter_distributes_over_add(shown.take(idx as int), rest, test);
            let matching = shown.filter(test);
            if idx == entries.len() {
                assert(shown.take(idx as int) =~= shown);
            } else {
                assert(texts_of(found@) =~= matching.take(SUGGESTION_LIMIT as int));
            }
            assert(texts_of(found@) == suggestions(self.input@, entries@));
        }
        self.paths = found;
        self.lcp = self.longest_common_prefix();
    }

    /// The longest text that every suggestion starts with; the empty text
    /// where there is no suggestion.
    pub fn longest_common_prefix(&self) -> (prefix: String)
        ensures
            is_longest_common_prefix(prefix@, self@.paths),
    {
        if self.paths.len() == 0 {
            return String::new();
        }
        let ghost texts = texts_of(self.paths@);
        let first = chars_of(self.paths[0].as_str());
        let mut len: usize = first.len();
        let mut j: usize = 1;
        while j < self.paths.len()
            invariant
                1 <= j <= self.paths.len(),
                texts == texts_of(self.paths@),
                first@ == texts[0],
                len <= first.len(),
                forall|i: int| 0 <= i < j ==> len <= (#[trigger] texts[i]).len(),
                forall|i: int, t: int|
                    0 <= i < j && 0 <= t < len ==> #[trigger] texts[i][t] == first@[t],
                len == first.len() || exists|i: int|
                    0 <= i < j && (#[trigger] texts[i].len() <= len || texts[i][len as int]
                        != first@[len as int]),
            decreases self.paths.len() - j,
        {
            let other = chars_of(self.paths[j].as_str());
            assert(other@ == texts[j as int]);
            let shorter = common_len(&first, &other, len);
            if shorter < len {
                assert(texts[j as int].len() <= shorter || texts[j as int][shorter as int]
                    != first@[shorter as int]);
            }
            len = shorter;
            j += 1;
        }
        let prefix = self.paths[0].as_str().substring_char(0, len).to_owned();
        proof {
            assert(prefix@ =~= first@.take(len as int));
            assert forall|i: int| 0 <= i < texts.len() implies prefix@.is_prefix_of(
                #[trigger] texts[i],
            ) by {
                assert(len <= texts[i].len());
                assert(prefix@ =~= texts[i].subrange(0, len as int));
            }
            assert forall|other: Seq<char>| #[trigger]
                is_common_prefix(other, texts) implies other.is_prefix_of(prefix@) by {
                assert(other.is_prefix_of(texts[0]));
                if other.len() > len {
                    let i = choose|i: int|
                        0 <= i < texts.len() && (#[trigger] texts[i].len() <= len
                            || texts[i][len as int] != first@[len as int]);
                    assert(other.is_prefix_of(texts[i]));
                    assert(other[len as int] == texts[i].subrange(0, other.len() as int)[len as int]);
                    assert(other[len as int] == texts[0].subrange(0, other.len() as int)[len as int]);
                    assert(false);
                }
                assert(other =~= prefix@.subrange(0, other.len() as int)) by {
                    assert forall|t: int| 0 <= t < other.len() implies other[t] == prefix@[t] by {
                        assert(other[t] == texts[0].subrange(0, other.len() as int)[t]);
                    }
                }
            }
        }
        prefix
    }

    /// The suggestions for the current input, in the order found.
    pub fn get_suggestions(&self) -> (paths: Vec<String>)
        ensures
            texts_of(paths@) == self@.paths,
    {
        let mut paths: Vec<String> = Vec::new();
        let mut i: usize = 0;
        while i < self.paths.len()
            invariant
                i <= self.paths.len(),
                paths@ == self.paths@.take(i as int),
            decreases self.paths.len() - i,
        {
            let path = self.paths[i].clone();
            assert(self.paths@.take(i + 1) =~= self.paths@.take(i as int).push(path));
            paths.push(path);
            i += 1;
        }
        assert(self.paths@.take(i as int) =~= self.paths@);
        paths
    }

    /// What replaces the input when the user asks for completion: the
    /// highlighted suggestion where there is one, else the longest common
    /// prefix of the suggestions, unless that is empty.
    pub fn get_completion(&self, highlighted: Option<String>) -> (replacement: Option<String>)
        ensures
            highlighted.is_some() ==> replacement == highlighted,
            highlighted.is_none() && self@.lcp.len() == 0 ==> replacement.is_none(),
            highlighted.is_none() && self@.lcp.len() > 0 ==> replacement.is_some()
                && replacement.unwrap()@ == self@.lcp,
    {
        match highlighted {
            Some(suggestion) => Some(suggestion),
            None => {
                if self.lcp.as_str().unicode_len() == 0 {
                    None
                } else {
                    Some(self.lcp.clone())
                }
            },
        }
    }
}

} // verus!
