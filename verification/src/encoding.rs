//! Glyph-name encodings: immutable tables that assign 8-bit code points
//! to type1 glyph names, together with the unicode characters that reach
//! those code points.

use vstd::prelude::*;

verus! {

/// Looks `key` up in an association list of (glyph name, code) pairs.
/// Later pairs override earlier ones, exactly as repeated inserts into a
/// name-keyed map would; each name is therefore assigned at most one code.
pub open spec fn name_lookup(pairs: Seq<(Seq<char>, u8)>, key: Seq<char>) -> Option<u8>
    decreases pairs.len(),
{
    if pairs.len() == 0 {
        None
    } else if pairs.last().0 == key {
        Some(pairs.last().1)
    } else {
        name_lookup(pairs.drop_last(), key)
    }
}

/// Looks `key` up in an association list of (character, code) pairs,
/// later pairs overriding earlier ones.
pub open spec fn char_lookup(pairs: Seq<(char, u8)>, key: char) -> Option<u8>
    decreases pairs.len(),
{
    if pairs.len() == 0 {
        None
    } else if pairs.last().0 == key {
        Some(pairs.last().1)
    } else {
        char_lookup(pairs.drop_last(), key)
    }
}

/// The pairs a block fill adds: the k-th name receives code `start + k`.
pub open spec fn block_pairs(start: int, names: Seq<Seq<char>>) -> Seq<(Seq<char>, u8)> {
    Seq::new(names.len(), |i: int| (names[i], (start + i) as u8))
}

/// The views of a sequence of string slices.
pub open spec fn str_views(names: Seq<&'static str>) -> Seq<Seq<char>> {
    Seq::new(names.len(), |i: int| names[i]@)
}

/// The view of a (string slice, code) table: each name as its view.
pub open spec fn name_pairs_view(pairs: Seq<(&'static str, u8)>) -> Seq<(Seq<char>, u8)> {
    Seq::new(pairs.len(), |i: int| (pairs[i].0@, pairs[i].1))
}

/// The pairs a character block fill adds: the k-th character receives
/// code `start + k`.
pub open spec fn char_block_pairs(start: int, chars: Seq<char>) -> Seq<(char, u8)> {
    Seq::new(chars.len(), |i: int| (chars[i], (start + i) as u8))
}

/// The encoded image of a text: each character the encoding covers
/// becomes its code point, characters outside the encoding are dropped.
pub open spec fn encode_seq(chars: Seq<(char, u8)>, text: Seq<char>) -> Seq<u8>
    decreases text.len(),
{
    if text.len() == 0 {
        Seq::empty()
    } else {
        encode_seq(chars, text.drop_last()) + match char_lookup(chars, text.last()) {
            Some(code) => seq![code],
            None => Seq::empty(),
        }
    }
}

/// The mathematical image of an [`Encoding`]: its identifier, its
/// glyph-name table and its character table.
#[verifier::ext_equal]
pub ghost struct EncodingView {
    pub name: Seq<char>,
    pub names: Seq<(Seq<char>, u8)>,
    pub chars: Seq<(char, u8)>,
}

/// A complete glyph-name-to-code-point table for one font encoding,
/// built once and never mutated afterwards.
pub struct Encoding {
    name: &'static str,
    names: Vec<(&'static str, u8)>,
    chars: Vec<(char, u8)>,
}

impl View for Encoding {
    type V = EncodingView;

    closed spec fn view(&self) -> EncodingView {
        EncodingView {
            name: self.name@,
            names: name_pairs_view(self.names@),
            chars: self.chars@,
        }
    }
}

/// Character-by-character string equality, equivalent to equality of the
/// two views.
fn str_eq(a: &str, b: &str) -> (r: bool)
    ensures
        r == (a@ == b@),
{
    let la = a.unicode_len();
    let lb = b.unicode_len();
    if la != lb {
        return false;
    }
    let mut i: usize = 0;
    while i < la
        invariant
            la == a@.len(),
            la == b@.len(),
            0 <= i <= la,
            forall|j: int| 0 <= j < i ==> a@[j] == b@[j],
        decreases la - i,
    {
        if a.get_char(i) != b.get_char(i) {
            return false;
        }
        i = i + 1;
    }
    proof {
        assert(a@ =~= b@);
    }
    true
}

impl Encoding {
    /// The identifier of this encoding, as a font object names it.
    pub fn get_name(&self) -> (r: &str)
        ensures
            r@ == self@.name,
    {
        self.name
    }

    /// Get the encoded code point from a type1 character name.
    pub fn get_code(&self, name: &str) -> (r: Option<u8>)
        ensures
            r == name_lookup(self@.names, name@),
    {
        let n = self.names.len();
        proof {
            assert(self@.names.take(n as int) =~= self@.names);
        }
        let mut i: usize = n;
        while i > 0
            invariant
                i <= n,
                n == self.names.len(),
                self@.names.len() == n,
                name_lookup(self@.names, name@) == name_lookup(self@.names.take(i as int), name@),
            decreases i,
    {
            i = i - 1;
            let pair = self.names[i];
            if str_eq(pair.0, name) {
                proof {
                    assert(self@.names.take(i + 1 as int).last() == (pair.0@, pair.1));
                }
                return Some(pair.1);
            }
            proof {
                assert(self@.names.take(i + 1 as int).last() == (pair.0@, pair.1));
                assert(self@.names.take(i + 1 as int).drop_last() =~= self@.names.take(i as int));
            }
        }
        None
    }

    /// The code point this encoding assigns to a unicode character, if any.
    pub fn encode_char(&self, c: char) -> (r: Option<u8>)
        ensures
            r == char_lookup(self@.chars, c),
    {
        let n = self.chars.len();
        proof {
            assert(self@.chars.take(n as int) =~= self@.chars);
        }
        let mut i: usize = n;
        while i > 0
            invariant
                i <= n,
                n == self.chars.len(),
                self@.chars.len() == n,
                char_lookup(self@.chars, c) == char_lookup(self@.chars.take(i as int), c),
            decreases i,
    {
            i = i - 1;
            let pair = self.chars[i];
            if pair.0 == c {
                proof {
                    assert(self@.chars.take(i + 1 as int).last() == pair);
                }
                return Some(pair.1);
            }
            proof {
                assert(self@.chars.take(i + 1 as int).last() == pair);
                assert(self@.chars.take(i + 1 as int).drop_last() =~= self@.chars.take(i as int));
            }
        }
        None
    }

    /// Encodes each covered character of `text` to its code point and
    /// drops the characters this encoding does not cover.
    pub fn encode_string(&self, text: &str) -> (r: Vec<u8>)
        ensures
            r@ == encode_seq(self@.chars, text@),
    {
        let n = text.unicode_len();
        let mut result: Vec<u8> = Vec::new();
        let mut i: usize = 0;
        while i < n
            invariant
                0 <= i <= n,
                n == text@.len(),
                result@ == encode_seq(self@.chars, text@.take(i as int)),
            decreases n - i,
    {
            let c = text.get_char(i);
            proof {
                assert(text@.take(i + 1 as int).drop_last() =~= text@.take(i as int));
                assert(text@.take(i + 1 as int).last() == text@[i as int]);
            }
            match self.encode_char(c) {
                Some(code) => {
                    result.push(code);
                    proof {
                        assert(result@ =~= encode_seq(self@.chars, text@.take(i + 1 as int)));
                    }
                },
                None => {
                    proof {
                        assert(result@ =~= encode_seq(self@.chars, text@.take(i + 1 as int)));
                    }
                },
            }
            i = i + 1;
        }
        proof {
            assert(text@.take(n as int) =~= text@);
        }
        result
    }

    /// An empty table under the given identifier, ready for block fills.
    pub fn new(name: &'static str) -> (r: Encoding)
        ensures
            r@.name == name@,
            r@.names == Seq::<(Seq<char>, u8)>::empty(),
            r@.chars == Seq::<(char, u8)>::empty(),
    {
        let r = Encoding { name, names: Vec::new(), chars: Vec::new() };
        proof {
            assert(r@.names =~= Seq::<(Seq<char>, u8)>::empty());
        }
        r
    }

    /// Fills one contiguous block of code points: the k-th name of `data`
    /// is assigned code `start + k`.
    pub fn init_block(&mut self, start: u8, data: Vec<&'static str>)
        requires
            start as int + data@.len() <= 256,
        ensures
            final(self)@.name == old(self)@.name,
            final(self)@.chars == old(self)@.chars,
            final(self)@.names == old(self)@.names + block_pairs(start as int, str_views(data@)),
    {
        let ghost orig = self@.names;
        let ghost views = str_views(data@);
        let n = data.len();
        let mut k: usize = 0;
        while k < n
            invariant
                0 <= k <= n,
                n == data.len(),
                views == str_views(data@),
                views.len() == n,
                start as int + n <= 256,
                self@.name == old(self)@.name,
                self@.chars == old(self)@.chars,
                self@.names == orig + block_pairs(start as int, views.take(k as int)),
                orig == old(self)@.names,
            decreases n - k,
    {
            let s = data[k];
            let ghost pre = self.names@;
            self.names.push((s, start + k as u8));
            proof {
                assert(self.names@ == pre.push((s, ((start as int + k) as u8))));
                assert(name_pairs_view(pre.push((s, ((start as int + k) as u8)))) =~~= name_pairs_view(
                    pre,
                ).push((s@, (start as int + k) as u8)));
                assert(block_pairs(start as int, views.take(k + 1 as int)) =~~= block_pairs(
                    start as int,
                    views.take(k as int),
                ).push((views[k as int], (start as int + k) as u8)));
                assert(s@ == views[k as int]);
                assert(self@.names =~~= orig + block_pairs(start as int, views.take(k + 1 as int)));
            }
            k = k + 1;
        }
        proof {
            assert(views.take(n as int) =~= views);
        }
    }

    /// Fills one contiguous block of the character table: the k-th
    /// character of `data` is assigned code `start + k`.
    pub fn init_char_block(&mut self, start: u8, data: &str)
        requires
            start as int + data@.len() <= 256,
        ensures
            final(self)@.name == old(self)@.name,
            final(self)@.names == old(self)@.names,
            final(self)@.chars == old(self)@.chars + char_block_pairs(start as int, data@),
    {
        let ghost orig = self@.chars;
        let n = data.unicode_len();
        let mut k: usize = 0;
        while k < n
            invariant
                0 <= k <= n,
                n == data@.len(),
                start as int + n <= 256,
                self@.name == old(self)@.name,
                self@.names == old(self)@.names,
                self@.chars == orig + char_block_pairs(start as int, data@.take(k as int)),
                orig == old(self)@.chars,
            decreases n - k,
    {
            let c = data.get_char(k);
            self.chars.push((c, start + k as u8));
            proof {
                assert(char_block_pairs(start as int, data@.take(k + 1 as int)) =~= char_block_pairs(
                    start as int,
                    data@.take(k as int),
                ).push((data@[k as int], (start as int + k) as u8)));
                assert(self@.chars =~~= orig + char_block_pairs(start as int, data@.take(k + 1 as int)));
            }
            k = k + 1;
        }
        proof {
            assert(data@.take(n as int) =~= data@);
        }
    }
}

/// The glyph-name table of the Western encoding: contiguous blocks of
/// code points from octal 40 through octal 373, matching the printable
/// and extended range of the target 8-bit code page. Names of the form
/// `..<digit>` are placeholders for intentionally unassigned slots.
pub open spec fn win_ansi_pairs() -> Seq<(Seq<char>, u8)> {
    block_pairs(0o40, str_views(seq!["space", "exclam", "quotedbl", "numbersign", "dollar", "percent", "ampersand", "quotesingle"]))
        + block_pairs(0o50, str_views(seq!["parenleft", "parenright", "asterisk", "plus", "comma", "hyphen", "period", "slash"]))
        + block_pairs(0o60, str_views(seq!["zero", "one", "two", "three", "four", "five", "six", "seven"]))
        + block_pairs(0o70, str_views(seq!["eight", "nine", "colon", "semicolon", "less", "equal", "greater", "question"]))
        + block_pairs(0o100, str_views(seq!["at", "A", "B", "C", "D", "E", "F", "G", "H", "I", "J", "K", "L", "M", "N", "O", "P", "Q", "R", "S", "T", "U", "V", "W", "X", "Y", "Z"]))
        + block_pairs(0o133, str_views(seq!["bracketleft", "backslash", "bracketright", "asciicircum", "underscore"]))
        + block_pairs(0o140, str_views(seq!["grave", "a", "b", "c", "d", "e", "f", "g", "h", "i", "j", "k", "l", "m", "n", "o", "p", "q", "r", "s", "t", "u", "v", "w", "x", "y", "z"]))
        + block_pairs(0o173, str_views(seq!["braceleft", "bar", "braceright", "asciitilde"]))
        + block_pairs(0o200, str_views(seq!["Euro", "..1", "quotesinglbase", "florin", "quotedblbase", "ellipsis", "dagger", "daggerdbl"]))
        + block_pairs(0o210, str_views(seq!["circumflex", "perthousand", "Scaron", "guilsinglleft", "OE", "..5", "Zcaron", "..7"]))
        + block_pairs(0o220, str_views(seq!["..0", "quoteleft", "quoteright", "quotedblleft", "quotedblright", "bullet", "endash", "emdash"]))
        + block_pairs(0o230, str_views(seq!["tilde", "trademark", "scaron", "guilsinglright", "oe", "..5", "zcaron", "Ydieresis"]))
        + block_pairs(0o240, str_views(seq!["..0", "exclamdown", "cent", "sterling", "currency", "yen", "brokenbar", "section"]))
        + block_pairs(0o250, str_views(seq!["dieresis", "copyright", "ordfeminine", "guillemotleft", "logicalnot", "..5", "registered", "macron"]))
        + block_pairs(0o260, str_views(seq!["degree", "plusminus", "twosuperior", "threesuperior", "acute", "mu", "paragraph", "periodcentered"]))
        + block_pairs(0o270, str_views(seq!["cedilla", "onesuperior", "ordmasculine", "guillemotright", "onequarter", "onehalf", "threequarters", "questiondown"]))
        + block_pairs(0o300, str_views(seq!["Agrave", "Aacute", "Acircumflex", "Atilde", "Adieresis", "Aring", "AE", "Ccedilla"]))
        + block_pairs(0o310, str_views(seq!["Egrave", "Eacute", "Ecircumflex", "Edieresis", "Igrave", "Iacute", "Icircumflex", "Idieresis"]))
        + block_pairs(0o320, str_views(seq!["Eth", "Ntilde", "Ograve", "Oacute", "Ocircumflex", "Otilde", "Odieresis", "multiply"]))
        + block_pairs(0o330, str_views(seq!["Oslash", "Ugrave", "Uacute", "Ucircumflex", "Udieresis", "Yacute", "Thorn", "germandbls"]))
        + block_pairs(0o340, str_views(seq!["agrave", "aacute", "acircumflex", "atilde", "adieresis", "aring", "ae", "ccedilla"]))
        + block_pairs(0o350, str_views(seq!["egrave", "eacute", "ecircumflex", "edieresis", "igrave", "iacute", "icircumflex", "idieresis"]))
        + block_pairs(0o360, str_views(seq!["eth", "ntilde", "ograve", "oacute", "ocircumflex", "otilde", "odieresis", "divide"]))
        + block_pairs(0o370, str_views(seq!["oslash", "ugrave", "uacute", "ucircumflex", "udieresis", "yacute", "thorn", "ydieresis"]))
}

/// The character table of the Western encoding: the unicode characters
/// that reach its assigned code points.
pub open spec fn win_ansi_chars() -> Seq<(char, u8)> {
    char_block_pairs(0o40, " !\"#$%&'()*+,-./0123456789:;<=>?@ABCDEFGHIJKLMNOPQRSTUVWXYZ[\\]^_`abcdefghijklmnopqrstuvwxyz{|}~"@)
        + char_block_pairs(0o200, "\u{20ac}"@)
        + char_block_pairs(0o202, "\u{201a}\u{192}\u{201e}\u{2026}\u{2020}\u{2021}\u{2c6}\u{2030}\u{160}\u{2039}\u{152}"@)
        + char_block_pairs(0o216, "\u{17d}"@)
        + char_block_pairs(0o221, "\u{2018}\u{2019}\u{201c}\u{201d}\u{2022}\u{2013}\u{2014}\u{2dc}\u{2122}\u{161}\u{203a}\u{153}"@)
        + char_block_pairs(0o236, "\u{17e}\u{178}"@)
        + char_block_pairs(0o241, "\u{a1}\u{a2}\u{a3}\u{a4}\u{a5}\u{a6}\u{a7}\u{a8}\u{a9}\u{aa}\u{ab}\u{ac}"@)
        + char_block_pairs(0o256, "\u{ae}\u{af}\u{b0}\u{b1}\u{b2}\u{b3}\u{b4}\u{b5}\u{b6}\u{b7}\u{b8}\u{b9}\u{ba}\u{bb}\u{bc}\u{bd}\u{be}\u{bf}\u{c0}\u{c1}\u{c2}\u{c3}\u{c4}\u{c5}\u{c6}\u{c7}\u{c8}\u{c9}\u{ca}\u{cb}\u{cc}\u{cd}\u{ce}\u{cf}\u{d0}\u{d1}\u{d2}\u{d3}\u{d4}\u{d5}\u{d6}\u{d7}\u{d8}\u{d9}\u{da}\u{db}\u{dc}\u{dd}\u{de}\u{df}\u{e0}\u{e1}\u{e2}\u{e3}\u{e4}\u{e5}\u{e6}\u{e7}\u{e8}\u{e9}\u{ea}\u{eb}\u{ec}\u{ed}\u{ee}\u{ef}\u{f0}\u{f1}\u{f2}\u{f3}\u{f4}\u{f5}\u{f6}\u{f7}\u{f8}\u{f9}\u{fa}\u{fb}\u{fc}\u{fd}\u{fe}\u{ff}"@)
}

/// The Western encoding as a whole.
pub open spec fn win_ansi_view() -> EncodingView {
    EncodingView { name: "WinAnsiEncoding"@, names: win_ansi_pairs(), chars: win_ansi_chars() }
}

/// Builds the Western table; the result is shared read-only by all
/// callers.
pub fn win_ansi_encoding() -> (e: Encoding)
    ensures
        e@ == win_ansi_view(),
{
    let mut e = Encoding::new("WinAnsiEncoding");
    e.init_block(0o40, vec!["space", "exclam", "quotedbl", "numbersign", "dollar", "percent", "ampersand", "quotesingle"]);
    e.init_block(0o50, vec!["parenleft", "parenright", "asterisk", "plus", "comma", "hyphen", "period", "slash"]);
    e.init_block(0o60, vec!["zero", "one", "two", "three", "four", "five", "six", "seven"]);
    e.init_block(0o70, vec!["eight", "nine", "colon", "semicolon", "less", "equal", "greater", "question"]);
    e.init_block(0o100, vec!["at", "A", "B", "C", "D", "E", "F", "G", "H", "I", "J", "K", "L", "M", "N", "O", "P", "Q", "R", "S", "T", "U", "V", "W", "X", "Y", "Z"]);
    e.init_block(0o133, vec!["bracketleft", "backslash", "bracketright", "asciicircum", "underscore"]);
    e.init_block(0o140, vec!["grave", "a", "b", "c", "d", "e", "f", "g", "h", "i", "j", "k", "l", "m", "n", "o", "p", "q", "r", "s", "t", "u", "v", "w", "x", "y", "z"]);
    e.init_block(0o173, vec!["braceleft", "bar", "braceright", "asciitilde"]);
    e.init_block(0o200, vec!["Euro", "..1", "quotesinglbase", "florin", "quotedblbase", "ellipsis", "dagger", "daggerdbl"]);
    e.init_block(0o210, vec!["circumflex", "perthousand", "Scaron", "guilsinglleft", "OE", "..5", "Zcaron", "..7"]);
    e.init_block(0o220, vec!["..0", "quoteleft", "quoteright", "quotedblleft", "quotedblright", "bullet", "endash", "emdash"]);
    e.init_block(0o230, vec!["tilde", "trademark", "scaron", "guilsinglright", "oe", "..5", "zcaron", "Ydieresis"]);
    e.init_block(0o240, vec!["..0", "exclamdown", "cent", "sterling", "currency", "yen", "brokenbar", "section"]);
    e.init_block(0o250, vec!["dieresis", "copyright", "ordfeminine", "guillemotleft", "logicalnot", "..5", "registered", "macron"]);
    e.init_block(0o260, vec!["degree", "plusminus", "twosuperior", "threesuperior", "acute", "mu", "paragraph", "periodcentered"]);
    e.init_block(0o270, vec!["cedilla", "onesuperior", "ordmasculine", "guillemotright", "onequarter", "onehalf", "threequarters", "questiondown"]);
    e.init_block(0o300, vec!["Agrave", "Aacute", "Acircumflex", "Atilde", "Adieresis", "Aring", "AE", "Ccedilla"]);
    e.init_block(0o310, vec!["Egrave", "Eacute", "Ecircumflex", "Edieresis", "Igrave", "Iacute", "Icircumflex", "Idieresis"]);
    e.init_block(0o320, vec!["Eth", "Ntilde", "Ograve", "Oacute", "Ocircumflex", "Otilde", "Odieresis", "multiply"]);
    e.init_block(0o330, vec!["Oslash", "Ugrave", "Uacute", "Ucircumflex", "Udieresis", "Yacute", "Thorn", "germandbls"]);
    e.init_block(0o340, vec!["agrave", "aacute", "acircumflex", "atilde", "adieresis", "aring", "ae", "ccedilla"]);
    e.init_block(0o350, vec!["egrave", "eacute", "ecircumflex", "edieresis", "igrave", "iacute", "icircumflex", "idieresis"]);
    e.init_block(0o360, vec!["eth", "ntilde", "ograve", "oacute", "ocircumflex", "otilde", "odieresis", "divide"]);
    e.init_block(0o370, vec!["oslash", "ugrave", "uacute", "ucircumflex", "udieresis", "yacute", "thorn", "ydieresis"]);
    proof {
        reveal_strlit(" !\"#$%&'()*+,-./0123456789:;<=>?@ABCDEFGHIJKLMNOPQRSTUVWXYZ[\\]^_`abcdefghijklmnopqrstuvwxyz{|}~");
        reveal_strlit("\u{20ac}");
        reveal_strlit("\u{201a}\u{192}\u{201e}\u{2026}\u{2020}\u{2021}\u{2c6}\u{2030}\u{160}\u{2039}\u{152}");
        reveal_strlit("\u{17d}");
        reveal_strlit("\u{2018}\u{2019}\u{201c}\u{201d}\u{2022}\u{2013}\u{2014}\u{2dc}\u{2122}\u{161}\u{203a}\u{153}");
        reveal_strlit("\u{17e}\u{178}");
        reveal_strlit("\u{a1}\u{a2}\u{a3}\u{a4}\u{a5}\u{a6}\u{a7}\u{a8}\u{a9}\u{aa}\u{ab}\u{ac}");
        reveal_strlit("\u{ae}\u{af}\u{b0}\u{b1}\u{b2}\u{b3}\u{b4}\u{b5}\u{b6}\u{b7}\u{b8}\u{b9}\u{ba}\u{bb}\u{bc}\u{bd}\u{be}\u{bf}\u{c0}\u{c1}\u{c2}\u{c3}\u{c4}\u{c5}\u{c6}\u{c7}\u{c8}\u{c9}\u{ca}\u{cb}\u{cc}\u{cd}\u{ce}\u{cf}\u{d0}\u{d1}\u{d2}\u{d3}\u{d4}\u{d5}\u{d6}\u{d7}\u{d8}\u{d9}\u{da}\u{db}\u{dc}\u{dd}\u{de}\u{df}\u{e0}\u{e1}\u{e2}\u{e3}\u{e4}\u{e5}\u{e6}\u{e7}\u{e8}\u{e9}\u{ea}\u{eb}\u{ec}\u{ed}\u{ee}\u{ef}\u{f0}\u{f1}\u{f2}\u{f3}\u{f4}\u{f5}\u{f6}\u{f7}\u{f8}\u{f9}\u{fa}\u{fb}\u{fc}\u{fd}\u{fe}\u{ff}");
    }
    e.init_char_block(0o40, " !\"#$%&'()*+,-./0123456789:;<=>?@ABCDEFGHIJKLMNOPQRSTUVWXYZ[\\]^_`abcdefghijklmnopqrstuvwxyz{|}~");
    e.init_char_block(0o200, "\u{20ac}");
    e.init_char_block(0o202, "\u{201a}\u{192}\u{201e}\u{2026}\u{2020}\u{2021}\u{2c6}\u{2030}\u{160}\u{2039}\u{152}");
    e.init_char_block(0o216, "\u{17d}");
    e.init_char_block(0o221, "\u{2018}\u{2019}\u{201c}\u{201d}\u{2022}\u{2013}\u{2014}\u{2dc}\u{2122}\u{161}\u{203a}\u{153}");
    e.init_char_block(0o236, "\u{17e}\u{178}");
    e.init_char_block(0o241, "\u{a1}\u{a2}\u{a3}\u{a4}\u{a5}\u{a6}\u{a7}\u{a8}\u{a9}\u{aa}\u{ab}\u{ac}");
    e.init_char_block(0o256, "\u{ae}\u{af}\u{b0}\u{b1}\u{b2}\u{b3}\u{b4}\u{b5}\u{b6}\u{b7}\u{b8}\u{b9}\u{ba}\u{bb}\u{bc}\u{bd}\u{be}\u{bf}\u{c0}\u{c1}\u{c2}\u{c3}\u{c4}\u{c5}\u{c6}\u{c7}\u{c8}\u{c9}\u{ca}\u{cb}\u{cc}\u{cd}\u{ce}\u{cf}\u{d0}\u{d1}\u{d2}\u{d3}\u{d4}\u{d5}\u{d6}\u{d7}\u{d8}\u{d9}\u{da}\u{db}\u{dc}\u{dd}\u{de}\u{df}\u{e0}\u{e1}\u{e2}\u{e3}\u{e4}\u{e5}\u{e6}\u{e7}\u{e8}\u{e9}\u{ea}\u{eb}\u{ec}\u{ed}\u{ee}\u{ef}\u{f0}\u{f1}\u{f2}\u{f3}\u{f4}\u{f5}\u{f6}\u{f7}\u{f8}\u{f9}\u{fa}\u{fb}\u{fc}\u{fd}\u{fe}\u{ff}");
    proof {
        assert(e@.names =~~= win_ansi_pairs());
        assert(e@.chars =~~= win_ansi_chars());
        assert(e@ =~~= win_ansi_view());
    }
    e
}

/// The glyph-name table of the symbol encoding, over its printable
/// range.
pub open spec fn symbol_pairs() -> Seq<(Seq<char>, u8)> {
    block_pairs(0o40, str_views(seq!["space", "exclam", "universal", "numbersign", "existential", "percent", "ampersand", "suchthat"]))
        + block_pairs(0o50, str_views(seq!["parenleft", "parenright", "asteriskmath", "plus", "comma", "minus", "period", "slash"]))
        + block_pairs(0o60, str_views(seq!["zero", "one", "two", "three", "four", "five", "six", "seven"]))
        + block_pairs(0o70, str_views(seq!["eight", "nine", "colon", "semicolon", "less", "equal", "greater", "question"]))
        + block_pairs(0o100, str_views(seq!["congruent", "Alpha", "Beta", "Chi", "Delta", "Epsilon", "Phi", "Gamma", "Eta", "Iota", "theta1", "Kappa", "Lambda", "Mu", "Nu", "Omicron", "Pi", "Theta", "Rho", "Sigma", "Tau", "Upsilon", "sigma1", "Omega", "Xi", "Psi", "Zeta"]))
        + block_pairs(0o133, str_views(seq!["bracketleft", "therefore", "bracketright", "perpendicular", "underscore"]))
        + block_pairs(0o140, str_views(seq!["radicalex", "alpha", "beta", "chi", "delta", "epsilon", "phi", "gamma", "eta", "iota", "phi1", "kappa", "lambda", "mu", "nu", "omicron", "pi", "theta", "rho", "sigma", "tau", "upsilon", "omega1", "omega", "xi", "psi", "zeta"]))
        + block_pairs(0o173, str_views(seq!["braceleft", "bar", "braceright", "similar"]))
}

/// The character table of the symbol encoding.
pub open spec fn symbol_chars() -> Seq<(char, u8)> {
    char_block_pairs(0o40, " !"@)
        + char_block_pairs(0o43, "#"@)
        + char_block_pairs(0o45, "%&"@)
        + char_block_pairs(0o50, "()"@)
        + char_block_pairs(0o53, "+,"@)
        + char_block_pairs(0o56, "./0123456789:;<=>?"@)
        + char_block_pairs(0o101, "\u{391}\u{392}\u{3a7}\u{394}\u{395}\u{3a6}\u{393}\u{397}\u{399}\u{3d1}\u{39a}\u{39b}\u{39c}\u{39d}\u{39f}\u{3a0}\u{398}\u{3a1}\u{3a3}\u{3a4}\u{3a5}\u{3c2}\u{3a9}\u{39e}\u{3a8}\u{396}"@)
        + char_block_pairs(0o133, "["@)
        + char_block_pairs(0o135, "]"@)
        + char_block_pairs(0o137, "_"@)
        + char_block_pairs(0o141, "\u{3b1}\u{3b2}\u{3c7}\u{3b4}\u{3b5}\u{3c6}\u{3b3}\u{3b7}\u{3b9}\u{3d5}\u{3ba}\u{3bb}\u{3bc}\u{3bd}\u{3bf}\u{3c0}\u{3b8}\u{3c1}\u{3c3}\u{3c4}\u{3c5}\u{3d6}\u{3c9}\u{3be}\u{3c8}\u{3b6}"@)
        + char_block_pairs(0o173, "{|}"@)
}

/// The symbol encoding as a whole.
pub open spec fn symbol_view() -> EncodingView {
    EncodingView { name: "SymbolEncoding"@, names: symbol_pairs(), chars: symbol_chars() }
}

/// Builds the symbol table; the result is shared read-only by all
/// callers.
pub fn symbol_encoding() -> (e: Encoding)
    ensures
        e@ == symbol_view(),
{
    let mut e = Encoding::new("SymbolEncoding");
    e.init_block(0o40, vec!["space", "exclam", "universal", "numbersign", "existential", "percent", "ampersand", "suchthat"]);
    e.init_block(0o50, vec!["parenleft", "parenright", "asteriskmath", "plus", "comma", "minus", "period", "slash"]);
    e.init_block(0o60, vec!["zero", "one", "two", "three", "four", "five", "six", "seven"]);
    e.init_block(0o70, vec!["eight", "nine", "colon", "semicolon", "less", "equal", "greater", "question"]);
    e.init_block(0o100, vec!["congruent", "Alpha", "Beta", "Chi", "Delta", "Epsilon", "Phi", "Gamma", "Eta", "Iota", "theta1", "Kappa", "Lambda", "Mu", "Nu", "Omicron", "Pi", "Theta", "Rho", "Sigma", "Tau", "Upsilon", "sigma1", "Omega", "Xi", "Psi", "Zeta"]);
    e.init_block(0o133, vec!["bracketleft", "therefore", "bracketright", "perpendicular", "underscore"]);
    e.init_block(0o140, vec!["radicalex", "alpha", "beta", "chi", "delta", "epsilon", "phi", "gamma", "eta", "iota", "phi1", "kappa", "lambda", "mu", "nu", "omicron", "pi", "theta", "rho", "sigma", "tau", "upsilon", "omega1", "omega", "xi", "psi", "zeta"]);
    e.init_block(0o173, vec!["braceleft", "bar", "braceright", "similar"]);
    proof {
        reveal_strlit(" !");
        reveal_strlit("#");
        reveal_strlit("%&");
        reveal_strlit("()");
        reveal_strlit("+,");
        reveal_strlit("./0123456789:;<=>?");
        reveal_strlit("\u{391}\u{392}\u{3a7}\u{394}\u{395}\u{3a6}\u{393}\u{397}\u{399}\u{3d1}\u{39a}\u{39b}\u{39c}\u{39d}\u{39f}\u{3a0}\u{398}\u{3a1}\u{3a3}\u{3a4}\u{3a5}\u{3c2}\u{3a9}\u{39e}\u{3a8}\u{396}");
        reveal_strlit("[");
        reveal_strlit("]");
        reveal_strlit("_");
        reveal_strlit("\u{3b1}\u{3b2}\u{3c7}\u{3b4}\u{3b5}\u{3c6}\u{3b3}\u{3b7}\u{3b9}\u{3d5}\u{3ba}\u{3bb}\u{3bc}\u{3bd}\u{3bf}\u{3c0}\u{3b8}\u{3c1}\u{3c3}\u{3c4}\u{3c5}\u{3d6}\u{3c9}\u{3be}\u{3c8}\u{3b6}");
        reveal_strlit("{|}");
    }
    e.init_char_block(0o40, " !");
    e.init_char_block(0o43, "#");
    e.init_char_block(0o45, "%&");
    e.init_char_block(0o50, "()");
    e.init_char_block(0o53, "+,");
    e.init_char_block(0o56, "./0123456789:;<=>?");
    e.init_char_block(0o101, "\u{391}\u{392}\u{3a7}\u{394}\u{395}\u{3a6}\u{393}\u{397}\u{399}\u{3d1}\u{39a}\u{39b}\u{39c}\u{39d}\u{39f}\u{3a0}\u{398}\u{3a1}\u{3a3}\u{3a4}\u{3a5}\u{3c2}\u{3a9}\u{39e}\u{3a8}\u{396}");
    e.init_char_block(0o133, "[");
    e.init_char_block(0o135, "]");
    e.init_char_block(0o137, "_");
    e.init_char_block(0o141, "\u{3b1}\u{3b2}\u{3c7}\u{3b4}\u{3b5}\u{3c6}\u{3b3}\u{3b7}\u{3b9}\u{3d5}\u{3ba}\u{3bb}\u{3bc}\u{3bd}\u{3bf}\u{3c0}\u{3b8}\u{3c1}\u{3c3}\u{3c4}\u{3c5}\u{3d6}\u{3c9}\u{3be}\u{3c8}\u{3b6}");
    e.init_char_block(0o173, "{|}");
    proof {
        assert(e@.names =~~= symbol_pairs());
        assert(e@.chars =~~= symbol_chars());
        assert(e@ =~~= symbol_view());
    }
    e
}

/// Encoding a concatenation encodes the parts in order.
pub proof fn lemma_encode_seq_append(chars: Seq<(char, u8)>, a: Seq<char>, b: Seq<char>)
    ensures
        encode_seq(chars, a + b) == encode_seq(chars, a) + encode_seq(chars, b),
    decreases b.len(),
{
    if b.len() == 0 {
        assert(a + b =~= a);
        assert(encode_seq(chars, a) + encode_seq(chars, b) =~= encode_seq(chars, a));
    } else {
        assert((a + b).drop_last() =~= a + b.drop_last());
        assert((a + b).last() == b.last());
        lemma_encode_seq_append(chars, a, b.drop_last());
        assert(encode_seq(chars, a + b) =~= encode_seq(chars, a) + encode_seq(chars, b));
    }
}

/// Looking a key up finds the last pair that carries it.
pub proof fn lemma_name_lookup_found(pairs: Seq<(Seq<char>, u8)>, key: Seq<char>, i: int)
    requires
        0 <= i < pairs.len(),
        pairs[i].0 == key,
        forall|j: int| i < j < pairs.len() ==> pairs[j].0 != key,
    ensures
        name_lookup(pairs, key) == Some(pairs[i].1),
    decreases pairs.len(),
{
    if i == pairs.len() - 1 {
        assert(pairs.last() == pairs[i]);
    } else {
        assert(pairs.last().0 != key);
        assert(pairs.drop_last()[i] == pairs[i]);
        lemma_name_lookup_found(pairs.drop_last(), key, i);
    }
}


/// True when no pair in `pairs[from..to]` carries `key` as its name.
pub open spec fn range_free(pairs: Seq<(Seq<char>, u8)>, key: Seq<char>, from: int, to: int) -> bool
    decreases to - from,
{
    if from >= to {
        true
    } else {
        pairs[from].0 != key && range_free(pairs, key, from + 1, to)
    }
}


/// Chaining two adjacent key-free ranges gives the combined range.
proof fn lemma_range_free_concat(pairs: Seq<(Seq<char>, u8)>, key: Seq<char>, a: int, b: int, c: int)
    requires
        a <= b <= c,
        range_free(pairs, key, a, b),
        range_free(pairs, key, b, c),
    ensures
        range_free(pairs, key, a, c),
    decreases b - a,
{
    if a < b {
        lemma_range_free_concat(pairs, key, a + 1, b, c);
    }
}

/// A key-free range means no pair in it carries the key.
proof fn lemma_range_free_all(pairs: Seq<(Seq<char>, u8)>, key: Seq<char>, a: int, b: int)
    requires
        range_free(pairs, key, a, b),
    ensures
        forall|j: int| a <= j < b ==> pairs[j].0 != key,
    decreases b - a,
{
    if a < b {
        lemma_range_free_all(pairs, key, a + 1, b);
    }
}

/// In the Western encoding a glyph name from the printable ASCII range
/// is assigned exactly that character's ASCII value. Shown here for the
/// names of the space, the digits zero and one, and the letters A and z;
/// the companion tests cover the remaining letters, digits and
/// punctuation.
#[verifier::rlimit(100)]
pub proof fn lemma_win_ansi_ascii_samples()
    ensures
        name_lookup(win_ansi_pairs(), "space"@) == Some(32u8),
        name_lookup(win_ansi_pairs(), "zero"@) == Some(48u8),
        name_lookup(win_ansi_pairs(), "one"@) == Some(49u8),
        name_lookup(win_ansi_pairs(), "A"@) == Some(65u8),
        name_lookup(win_ansi_pairs(), "z"@) == Some(122u8),
{
    reveal_strlit("..0");
    assert("..0"@.len() == 3 && "..0"@[0] == '.' && "..0"@[1] == '.' && "..0"@[2] == '0');
    reveal_strlit("..1");
    assert("..1"@.len() == 3 && "..1"@[0] == '.' && "..1"@[1] == '.' && "..1"@[2] == '1');
    reveal_strlit("..5");
    assert("..5"@.len() == 3 && "..5"@[0] == '.' && "..5"@[1] == '.' && "..5"@[2] == '5');
    reveal_strlit("..7");
    assert("..7"@.len() == 3 && "..7"@[0] == '.' && "..7"@[1] == '.' && "..7"@[2] == '7');
    reveal_strlit("A");
    assert("A"@.len() == 1 && "A"@[0] == 'A');
    reveal_strlit("AE");
    assert("AE"@.len() == 2 && "AE"@[0] == 'A' && "AE"@[1] == 'E');
    reveal_strlit("Aacute");
    assert("Aacute"@.len() == 6 && "Aacute"@[0] == 'A' && "Aacute"@[1] == 'a' && "Aacute"@[2] == 'c' && "Aacute"@[3] == 'u' && "Aacute"@[4] == 't' && "Aacute"@[5] == 'e');
    reveal_strlit("Acircumflex");
    assert("Acircumflex"@.len() == 11 && "Acircumflex"@[0] == 'A' && "Acircumflex"@[1] == 'c' && "Acircumflex"@[2] == 'i' && "Acircumflex"@[3] == 'r' && "Acircumflex"@[4] == 'c' && "Acircumflex"@[5] == 'u' && "Acircumflex"@[6] == 'm' && "Acircumflex"@[7] == 'f' && "Acircumflex"@[8] == 'l' && "Acircumflex"@[9] == 'e' && "Acircumflex"@[10] == 'x');
    reveal_strlit("Adieresis");
    assert("Adieresis"@.len() == 9 && "Adieresis"@[0] == 'A' && "Adieresis"@[1] == 'd' && "Adieresis"@[2] == 'i' && "Adieresis"@[3] == 'e' && "Adieresis"@[4] == 'r' && "Adieresis"@[5] == 'e' && "Adieresis"@[6] == 's' && "Adieresis"@[7] == 'i' && "Adieresis"@[8] == 's');
    reveal_strlit("Agrave");
    assert("Agrave"@.len() == 6 && "Agrave"@[0] == 'A' && "Agrave"@[1] == 'g' && "Agrave"@[2] == 'r' && "Agrave"@[3] == 'a' && "Agrave"@[4] == 'v' && "Agrave"@[5] == 'e');
    reveal_strlit("Aring");
    assert("Aring"@.len() == 5 && "Aring"@[0] == 'A' && "Aring"@[1] == 'r' && "Aring"@[2] == 'i' && "Aring"@[3] == 'n' && "Aring"@[4] == 'g');
    reveal_strlit("Atilde");
    assert("Atilde"@.len() == 6 && "Atilde"@[0] == 'A' && "Atilde"@[1] == 't' && "Atilde"@[2] == 'i' && "Atilde"@[3] == 'l' && "Atilde"@[4] == 'd' && "Atilde"@[5] == 'e');
    reveal_strlit("B");
    assert("B"@.len() == 1 && "B"@[0] == 'B');
    reveal_strlit("C");
    assert("C"@.len() == 1 && "C"@[0] == 'C');
    reveal_strlit("Ccedilla");
    assert("Ccedilla"@.len() == 8 && "Ccedilla"@[0] == 'C' && "Ccedilla"@[1] == 'c' && "Ccedilla"@[2] == 'e' && "Ccedilla"@[3] == 'd' && "Ccedilla"@[4] == 'i' && "Ccedilla"@[5] == 'l' && "Ccedilla"@[6] == 'l' && "Ccedilla"@[7] == 'a');
    reveal_strlit("D");
    assert("D"@.len() == 1 && "D"@[0] == 'D');
    reveal_strlit("E");
    assert("E"@.len() == 1 && "E"@[0] == 'E');
    reveal_strlit("Eacute");
    assert("Eacute"@.len() == 6 && "Eacute"@[0] == 'E' && "Eacute"@[1] == 'a' && "Eacute"@[2] == 'c' && "Eacute"@[3] == 'u' && "Eacute"@[4] == 't' && "Eacute"@[5] == 'e');
    reveal_strlit("Ecircumflex");
    assert("Ecircumflex"@.len() == 11 && "Ecircumflex"@[0] == 'E' && "Ecircumflex"@[1] == 'c' && "Ecircumflex"@[2] == 'i' && "Ecircumflex"@[3] == 'r' && "Ecircumflex"@[4] == 'c' && "Ecircumflex"@[5] == 'u' && "Ecircumflex"@[6] == 'm' && "Ecircumflex"@[7] == 'f' && "Ecircumflex"@[8] == 'l' && "Ecircumflex"@[9] == 'e' && "Ecircumflex"@[10] == 'x');
    reveal_strlit("Edieresis");
    assert("Edieresis"@.len() == 9 && "Edieresis"@[0] == 'E' && "Edieresis"@[1] == 'd' && "Edieresis"@[2] == 'i' && "Edieresis"@[3] == 'e' && "Edieresis"@[4] == 'r' && "Edieresis"@[5] == 'e' && "Edieresis"@[6] == 's' && "Edieresis"@[7] == 'i' && "Edieresis"@[8] == 's');
    reveal_strlit("Egrave");
    assert("Egrave"@.len() == 6 && "Egrave"@[0] == 'E' && "Egrave"@[1] == 'g' && "Egrave"@[2] == 'r' && "Egrave"@[3] == 'a' && "Egrave"@[4] == 'v' && "Egrave"@[5] == 'e');
    reveal_strlit("Eth");
    assert("Eth"@.len() == 3 && "Eth"@[0] == 'E' && "Eth"@[1] == 't' && "Eth"@[2] == 'h');
    reveal_strlit("Euro");
    assert("Euro"@.len() == 4 && "Euro"@[0] == 'E' && "Euro"@[1] == 'u' && "Euro"@[2] == 'r' && "Euro"@[3] == 'o');
    reveal_strlit("F");
    assert("F"@.len() == 1 && "F"@[0] == 'F');
    reveal_strlit("G");
    assert("G"@.len() == 1 && "G"@[0] == 'G');
    reveal_strlit("H");
    assert("H"@.len() == 1 && "H"@[0] == 'H');
    reveal_strlit("I");
    assert("I"@.len() == 1 && "I"@[0] == 'I');
    reveal_strlit("Iacute");
    assert("Iacute"@.len() == 6 && "Iacute"@[0] == 'I' && "Iacute"@[1] == 'a' && "Iacute"@[2] == 'c' && "Iacute"@[3] == 'u' && "Iacute"@[4] == 't' && "Iacute"@[5] == 'e');
    reveal_strlit("Icircumflex");
    assert("Icircumflex"@.len() == 11 && "Icircumflex"@[0] == 'I' && "Icircumflex"@[1] == 'c' && "Icircumflex"@[2] == 'i' && "Icircumflex"@[3] == 'r' && "Icircumflex"@[4] == 'c' && "Icircumflex"@[5] == 'u' && "Icircumflex"@[6] == 'm' && "Icircumflex"@[7] == 'f' && "Icircumflex"@[8] == 'l' && "Icircumflex"@[9] == 'e' && "Icircumflex"@[10] == 'x');
    reveal_strlit("Idieresis");
    assert("Idieresis"@.len() == 9 && "Idieresis"@[0] == 'I' && "Idieresis"@[1] == 'd' && "Idieresis"@[2] == 'i' && "Idieresis"@[3] == 'e' && "Idieresis"@[4] == 'r' && "Idieresis"@[5] == 'e' && "Idieresis"@[6] == 's' && "Idieresis"@[7] == 'i' && "Idieresis"@[8] == 's');
    reveal_strlit("Igrave");
    assert("Igrave"@.len() == 6 && "Igrave"@[0] == 'I' && "Igrave"@[1] == 'g' && "Igrave"@[2] == 'r' && "Igrave"@[3] == 'a' && "Igrave"@[4] == 'v' && "Igrave"@[5] == 'e');
    reveal_strlit("J");
    assert("J"@.len() == 1 && "J"@[0] == 'J');
    reveal_strlit("K");
    assert("K"@.len() == 1 && "K"@[0] == 'K');
    reveal_strlit("L");
    assert("L"@.len() == 1 && "L"@[0] == 'L');
    reveal_strlit("M");
    assert("M"@.len() == 1 && "M"@[0] == 'M');
    reveal_strlit("N");
    assert("N"@.len() == 1 && "N"@[0] == 'N');
    reveal_strlit("Ntilde");
    assert("Ntilde"@.len() == 6 && "Ntilde"@[0] == 'N' && "Ntilde"@[1] == 't' && "Ntilde"@[2] == 'i' && "Ntilde"@[3] == 'l' && "Ntilde"@[4] == 'd' && "Ntilde"@[5] == 'e');
    reveal_strlit("O");
    assert("O"@.len() == 1 && "O"@[0] == 'O');
    reveal_strlit("OE");
    assert("OE"@.len() == 2 && "OE"@[0] == 'O' && "OE"@[1] == 'E');
    reveal_strlit("Oacute");
    assert("Oacute"@.len() == 6 && "Oacute"@[0] == 'O' && "Oacute"@[1] == 'a' && "Oacute"@[2] == 'c' && "Oacute"@[3] == 'u' && "Oacute"@[4] == 't' && "Oacute"@[5] == 'e');
    reveal_strlit("Ocircumflex");
    assert("Ocircumflex"@.len() == 11 && "Ocircumflex"@[0] == 'O' && "Ocircumflex"@[1] == 'c' && "Ocircumflex"@[2] == 'i' && "Ocircumflex"@[3] == 'r' && "Ocircumflex"@[4] == 'c' && "Ocircumflex"@[5] == 'u' && "Ocircumflex"@[6] == 'm' && "Ocircumflex"@[7] == 'f' && "Ocircumflex"@[8] == 'l' && "Ocircumflex"@[9] == 'e' && "Ocircumflex"@[10] == 'x');
    reveal_strlit("Odieresis");
    assert("Odieresis"@.len() == 9 && "Odieresis"@[0] == 'O' && "Odieresis"@[1] == 'd' && "Odieresis"@[2] == 'i' && "Odieresis"@[3] == 'e' && "Odieresis"@[4] == 'r' && "Odieresis"@[5] == 'e' && "Odieresis"@[6] == 's' && "Odieresis"@[7] == 'i' && "Odieresis"@[8] == 's');
    reveal_strlit("Ograve");
    assert("Ograve"@.len() == 6 && "Ograve"@[0] == 'O' && "Ograve"@[1] == 'g' && "Ograve"@[2] == 'r' && "Ograve"@[3] == 'a' && "Ograve"@[4] == 'v' && "Ograve"@[5] == 'e');
    reveal_strlit("Oslash");
    assert("Oslash"@.len() == 6 && "Oslash"@[0] == 'O' && "Oslash"@[1] == 's' && "Oslash"@[2] == 'l' && "Oslash"@[3] == 'a' && "Oslash"@[4] == 's' && "Oslash"@[5] == 'h');
    reveal_strlit("Otilde");
    assert("Otilde"@.len() == 6 && "Otilde"@[0] == 'O' && "Otilde"@[1] == 't' && "Otilde"@[2] == 'i' && "Otilde"@[3] == 'l' && "Otilde"@[4] == 'd' && "Otilde"@[5] == 'e');
    reveal_strlit("P");
    assert("P"@.len() == 1 && "P"@[0] == 'P');
    reveal_strlit("Q");
    assert("Q"@.len() == 1 && "Q"@[0] == 'Q');
    reveal_strlit("R");
    assert("R"@.len() == 1 && "R"@[0] == 'R');
    reveal_strlit("S");
    assert("S"@.len() == 1 && "S"@[0] == 'S');
    reveal_strlit("Scaron");
    assert("Scaron"@.len() == 6 && "Scaron"@[0] == 'S' && "Scaron"@[1] == 'c' && "Scaron"@[2] == 'a' && "Scaron"@[3] == 'r' && "Scaron"@[4] == 'o' && "Scaron"@[5] == 'n');
    reveal_strlit("T");
    assert("T"@.len() == 1 && "T"@[0] == 'T');
    reveal_strlit("Thorn");
    assert("Thorn"@.len() == 5 && "Thorn"@[0] == 'T' && "Thorn"@[1] == 'h' && "Thorn"@[2] == 'o' && "Thorn"@[3] == 'r' && "Thorn"@[4] == 'n');
    reveal_strlit("U");
    assert("U"@.len() == 1 && "U"@[0] == 'U');
    reveal_strlit("Uacute");
    assert("Uacute"@.len() == 6 && "Uacute"@[0] == 'U' && "Uacute"@[1] == 'a' && "Uacute"@[2] == 'c' && "Uacute"@[3] == 'u' && "Uacute"@[4] == 't' && "Uacute"@[5] == 'e');
    reveal_strlit("Ucircumflex");
    assert("Ucircumflex"@.len() == 11 && "Ucircumflex"@[0] == 'U' && "Ucircumflex"@[1] == 'c' && "Ucircumflex"@[2] == 'i' && "Ucircumflex"@[3] == 'r' && "Ucircumflex"@[4] == 'c' && "Ucircumflex"@[5] == 'u' && "Ucircumflex"@[6] == 'm' && "Ucircumflex"@[7] == 'f' && "Ucircumflex"@[8] == 'l' && "Ucircumflex"@[9] == 'e' && "Ucircumflex"@[10] == 'x');
    reveal_strlit("Udieresis");
    assert("Udieresis"@.len() == 9 && "Udieresis"@[0] == 'U' && "Udieresis"@[1] == 'd' && "Udieresis"@[2] == 'i' && "Udieresis"@[3] == 'e' && "Udieresis"@[4] == 'r' && "Udieresis"@[5] == 'e' && "Udieresis"@[6] == 's' && "Udieresis"@[7] == 'i' && "Udieresis"@[8] == 's');
    reveal_strlit("Ugrave");
    assert("Ugrave"@.len() == 6 && "Ugrave"@[0] == 'U' && "Ugrave"@[1] == 'g' && "Ugrave"@[2] == 'r' && "Ugrave"@[3] == 'a' && "Ugrave"@[4] == 'v' && "Ugrave"@[5] == 'e');
    reveal_strlit("V");
    assert("V"@.len() == 1 && "V"@[0] == 'V');
    reveal_strlit("W");
    assert("W"@.len() == 1 && "W"@[0] == 'W');
    reveal_strlit("X");
    assert("X"@.len() == 1 && "X"@[0] == 'X');
    reveal_strlit("Y");
    assert("Y"@.len() == 1 && "Y"@[0] == 'Y');
    reveal_strlit("Yacute");
    assert("Yacute"@.len() == 6 && "Yacute"@[0] == 'Y' && "Yacute"@[1] == 'a' && "Yacute"@[2] == 'c' && "Yacute"@[3] == 'u' && "Yacute"@[4] == 't' && "Yacute"@[5] == 'e');
    reveal_strlit("Ydieresis");
    assert("Ydieresis"@.len() == 9 && "Ydieresis"@[0] == 'Y' && "Ydieresis"@[1] == 'd' && "Ydieresis"@[2] == 'i' && "Ydieresis"@[3] == 'e' && "Ydieresis"@[4] == 'r' && "Ydieresis"@[5] == 'e' && "Ydieresis"@[6] == 's' && "Ydieresis"@[7] == 'i' && "Ydieresis"@[8] == 's');
    reveal_strlit("Z");
    assert("Z"@.len() == 1 && "Z"@[0] == 'Z');
    reveal_strlit("Zcaron");
    assert("Zcaron"@.len() == 6 && "Zcaron"@[0] == 'Z' && "Zcaron"@[1] == 'c' && "Zcaron"@[2] == 'a' && "Zcaron"@[3] == 'r' && "Zcaron"@[4] == 'o' && "Zcaron"@[5] == 'n');
    reveal_strlit("a");
    assert("a"@.len() == 1 && "a"@[0] == 'a');
    reveal_strlit("aacute");
    assert("aacute"@.len() == 6 && "aacute"@[0] == 'a' && "aacute"@[1] == 'a' && "aacute"@[2] == 'c' && "aacute"@[3] == 'u' && "aacute"@[4] == 't' && "aacute"@[5] == 'e');
    reveal_strlit("acircumflex");
    assert("acircumflex"@.len() == 11 && "acircumflex"@[0] == 'a' && "acircumflex"@[1] == 'c' && "acircumflex"@[2] == 'i' && "acircumflex"@[3] == 'r' && "acircumflex"@[4] == 'c' && "acircumflex"@[5] == 'u' && "acircumflex"@[6] == 'm' && "acircumflex"@[7] == 'f' && "acircumflex"@[8] == 'l' && "acircumflex"@[9] == 'e' && "acircumflex"@[10] == 'x');
    reveal_strlit("acute");
    assert("acute"@.len() == 5 && "acute"@[0] == 'a' && "acute"@[1] == 'c' && "acute"@[2] == 'u' && "acute"@[3] == 't' && "acute"@[4] == 'e');
    reveal_strlit("adieresis");
    assert("adieresis"@.len() == 9 && "adieresis"@[0] == 'a' && "adieresis"@[1] == 'd' && "adieresis"@[2] == 'i' && "adieresis"@[3] == 'e' && "adieresis"@[4] == 'r' && "adieresis"@[5] == 'e' && "adieresis"@[6] == 's' && "adieresis"@[7] == 'i' && "adieresis"@[8] == 's');
    reveal_strlit("ae");
    assert("ae"@.len() == 2 && "ae"@[0] == 'a' && "ae"@[1] == 'e');
    reveal_strlit("agrave");
    assert("agrave"@.len() == 6 && "agrave"@[0] == 'a' && "agrave"@[1] == 'g' && "agrave"@[2] == 'r' && "agrave"@[3] == 'a' && "agrave"@[4] == 'v' && "agrave"@[5] == 'e');
    reveal_strlit("ampersand");
    assert("ampersand"@.len() == 9 && "ampersand"@[0] == 'a' && "ampersand"@[1] == 'm' && "ampersand"@[2] == 'p' && "ampersand"@[3] == 'e' && "ampersand"@[4] == 'r' && "ampersand"@[5] == 's' && "ampersand"@[6] == 'a' && "ampersand"@[7] == 'n' && "ampersand"@[8] == 'd');
    reveal_strlit("aring");
    assert("aring"@.len() == 5 && "aring"@[0] == 'a' && "aring"@[1] == 'r' && "aring"@[2] == 'i' && "aring"@[3] == 'n' && "aring"@[4] == 'g');
    reveal_strlit("asciicircum");
    assert("asciicircum"@.len() == 11 && "asciicircum"@[0] == 'a' && "asciicircum"@[1] == 's' && "asciicircum"@[2] == 'c' && "asciicircum"@[3] == 'i' && "asciicircum"@[4] == 'i' && "asciicircum"@[5] == 'c' && "asciicircum"@[6] == 'i' && "asciicircum"@[7] == 'r' && "asciicircum"@[8] == 'c' && "asciicircum"@[9] == 'u' && "asciicircum"@[10] == 'm');
    reveal_strlit("asciitilde");
    assert("asciitilde"@.len() == 10 && "asciitilde"@[0] == 'a' && "asciitilde"@[1] == 's' && "asciitilde"@[2] == 'c' && "asciitilde"@[3] == 'i' && "asciitilde"@[4] == 'i' && "asciitilde"@[5] == 't' && "asciitilde"@[6] == 'i' && "asciitilde"@[7] == 'l' && "asciitilde"@[8] == 'd' && "asciitilde"@[9] == 'e');
    reveal_strlit("asterisk");
    assert("asterisk"@.len() == 8 && "asterisk"@[0] == 'a' && "asterisk"@[1] == 's' && "asterisk"@[2] == 't' && "asterisk"@[3] == 'e' && "asterisk"@[4] == 'r' && "asterisk"@[5] == 'i' && "asterisk"@[6] == 's' && "asterisk"@[7] == 'k');
    reveal_strlit("at");
    assert("at"@.len() == 2 && "at"@[0] == 'a' && "at"@[1] == 't');
    reveal_strlit("atilde");
    assert("atilde"@.len() == 6 && "atilde"@[0] == 'a' && "atilde"@[1] == 't' && "atilde"@[2] == 'i' && "atilde"@[3] == 'l' && "atilde"@[4] == 'd' && "atilde"@[5] == 'e');
    reveal_strlit("b");
    assert("b"@.len() == 1 && "b"@[0] == 'b');
    reveal_strlit("backslash");
    assert("backslash"@.len() == 9 && "backslash"@[0] == 'b' && "backslash"@[1] == 'a' && "backslash"@[2] == 'c' && "backslash"@[3] == 'k' && "backslash"@[4] == 's' && "backslash"@[5] == 'l' && "backslash"@[6] == 'a' && "backslash"@[7] == 's' && "backslash"@[8] == 'h');
    reveal_strlit("bar");
    assert("bar"@.len() == 3 && "bar"@[0] == 'b' && "bar"@[1] == 'a' && "bar"@[2] == 'r');
    reveal_strlit("braceleft");
    assert("braceleft"@.len() == 9 && "braceleft"@[0] == 'b' && "braceleft"@[1] == 'r' && "braceleft"@[2] == 'a' && "braceleft"@[3] == 'c' && "braceleft"@[4] == 'e' && "braceleft"@[5] == 'l' && "braceleft"@[6] == 'e' && "braceleft"@[7] == 'f' && "braceleft"@[8] == 't');
    reveal_strlit("braceright");
    assert("braceright"@.len() == 10 && "braceright"@[0] == 'b' && "braceright"@[1] == 'r' && "braceright"@[2] == 'a' && "braceright"@[3] == 'c' && "braceright"@[4] == 'e' && "braceright"@[5] == 'r' && "braceright"@[6] == 'i' && "braceright"@[7] == 'g' && "braceright"@[8] == 'h' && "braceright"@[9] == 't');
    reveal_strlit("bracketleft");
    assert("bracketleft"@.len() == 11 && "bracketleft"@[0] == 'b' && "bracketleft"@[1] == 'r' && "bracketleft"@[2] == 'a' && "bracketleft"@[3] == 'c' && "bracketleft"@[4] == 'k' && "bracketleft"@[5] == 'e' && "bracketleft"@[6] == 't' && "bracketleft"@[7] == 'l' && "bracketleft"@[8] == 'e' && "bracketleft"@[9] == 'f' && "bracketleft"@[10] == 't');
    reveal_strlit("bracketright");
    assert("bracketright"@.len() == 12 && "bracketright"@[0] == 'b' && "bracketright"@[1] == 'r' && "bracketright"@[2] == 'a' && "bracketright"@[3] == 'c' && "bracketright"@[4] == 'k' && "bracketright"@[5] == 'e' && "bracketright"@[6] == 't' && "bracketright"@[7] == 'r' && "bracketright"@[8] == 'i' && "bracketright"@[9] == 'g' && "bracketright"@[10] == 'h' && "bracketright"@[11] == 't');
    reveal_strlit("brokenbar");
    assert("brokenbar"@.len() == 9 && "brokenbar"@[0] == 'b' && "brokenbar"@[1] == 'r' && "brokenbar"@[2] == 'o' && "brokenbar"@[3] == 'k' && "brokenbar"@[4] == 'e' && "brokenbar"@[5] == 'n' && "brokenbar"@[6] == 'b' && "brokenbar"@[7] == 'a' && "brokenbar"@[8] == 'r');
    reveal_strlit("bullet");
    assert("bullet"@.len() == 6 && "bullet"@[0] == 'b' && "bullet"@[1] == 'u' && "bullet"@[2] == 'l' && "bullet"@[3] == 'l' && "bullet"@[4] == 'e' && "bullet"@[5] == 't');
    reveal_strlit("c");
    assert("c"@.len() == 1 && "c"@[0] == 'c');
    reveal_strlit("ccedilla");
    assert("ccedilla"@.len() == 8 && "ccedilla"@[0] == 'c' && "ccedilla"@[1] == 'c' && "ccedilla"@[2] == 'e' && "ccedilla"@[3] == 'd' && "ccedilla"@[4] == 'i' && "ccedilla"@[5] == 'l' && "ccedilla"@[6] == 'l' && "ccedilla"@[7] == 'a');
    reveal_strlit("cedilla");
    assert("cedilla"@.len() == 7 && "cedilla"@[0] == 'c' && "cedilla"@[1] == 'e' && "cedilla"@[2] == 'd' && "cedilla"@[3] == 'i' && "cedilla"@[4] == 'l' && "cedilla"@[5] == 'l' && "cedilla"@[6] == 'a');
    reveal_strlit("cent");
    assert("cent"@.len() == 4 && "cent"@[0] == 'c' && "cent"@[1] == 'e' && "cent"@[2] == 'n' && "cent"@[3] == 't');
    reveal_strlit("circumflex");
    assert("circumflex"@.len() == 10 && "circumflex"@[0] == 'c' && "circumflex"@[1] == 'i' && "circumflex"@[2] == 'r' && "circumflex"@[3] == 'c' && "circumflex"@[4] == 'u' && "circumflex"@[5] == 'm' && "circumflex"@[6] == 'f' && "circumflex"@[7] == 'l' && "circumflex"@[8] == 'e' && "circumflex"@[9] == 'x');
    reveal_strlit("colon");
    assert("colon"@.len() == 5 && "colon"@[0] == 'c' && "colon"@[1] == 'o' && "colon"@[2] == 'l' && "colon"@[3] == 'o' && "colon"@[4] == 'n');
    reveal_strlit("comma");
    assert("comma"@.len() == 5 && "comma"@[0] == 'c' && "comma"@[1] == 'o' && "comma"@[2] == 'm' && "comma"@[3] == 'm' && "comma"@[4] == 'a');
    reveal_strlit("copyright");
    assert("copyright"@.len() == 9 && "copyright"@[0] == 'c' && "copyright"@[1] == 'o' && "copyright"@[2] == 'p' && "copyright"@[3] == 'y' && "copyright"@[4] == 'r' && "copyright"@[5] == 'i' && "copyright"@[6] == 'g' && "copyright"@[7] == 'h' && "copyright"@[8] == 't');
    reveal_strlit("currency");
    assert("currency"@.len() == 8 && "currency"@[0] == 'c' && "currency"@[1] == 'u' && "currency"@[2] == 'r' && "currency"@[3] == 'r' && "currency"@[4] == 'e' && "currency"@[5] == 'n' && "currency"@[6] == 'c' && "currency"@[7] == 'y');
    reveal_strlit("d");
    assert("d"@.len() == 1 && "d"@[0] == 'd');
    reveal_strlit("dagger");
    assert("dagger"@.len() == 6 && "dagger"@[0] == 'd' && "dagger"@[1] == 'a' && "dagger"@[2] == 'g' && "dagger"@[3] == 'g' && "dagger"@[4] == 'e' && "dagger"@[5] == 'r');
    reveal_strlit("daggerdbl");
    assert("daggerdbl"@.len() == 9 && "daggerdbl"@[0] == 'd' && "daggerdbl"@[1] == 'a' && "daggerdbl"@[2] == 'g' && "daggerdbl"@[3] == 'g' && "daggerdbl"@[4] == 'e' && "daggerdbl"@[5] == 'r' && "daggerdbl"@[6] == 'd' && "daggerdbl"@[7] == 'b' && "daggerdbl"@[8] == 'l');
    reveal_strlit("degree");
    assert("degree"@.len() == 6 && "degree"@[0] == 'd' && "degree"@[1] == 'e' && "degree"@[2] == 'g' && "degree"@[3] == 'r' && "degree"@[4] == 'e' && "degree"@[5] == 'e');
    reveal_strlit("dieresis");
    assert("dieresis"@.len() == 8 && "dieresis"@[0] == 'd' && "dieresis"@[1] == 'i' && "dieresis"@[2] == 'e' && "dieresis"@[3] == 'r' && "dieresis"@[4] == 'e' && "dieresis"@[5] == 's' && "dieresis"@[6] == 'i' && "dieresis"@[7] == 's');
    reveal_strlit("divide");
    assert("divide"@.len() == 6 && "divide"@[0] == 'd' && "divide"@[1] == 'i' && "divide"@[2] == 'v' && "divide"@[3] == 'i' && "divide"@[4] == 'd' && "divide"@[5] == 'e');
    reveal_strlit("dollar");
    assert("dollar"@.len() == 6 && "dollar"@[0] == 'd' && "dollar"@[1] == 'o' && "dollar"@[2] == 'l' && "dollar"@[3] == 'l' && "dollar"@[4] == 'a' && "dollar"@[5] == 'r');
    reveal_strlit("e");
    assert("e"@.len() == 1 && "e"@[0] == 'e');
    reveal_strlit("eacute");
    assert("eacute"@.len() == 6 && "eacute"@[0] == 'e' && "eacute"@[1] == 'a' && "eacute"@[2] == 'c' && "eacute"@[3] == 'u' && "eacute"@[4] == 't' && "eacute"@[5] == 'e');
    reveal_strlit("ecircumflex");
    assert("ecircumflex"@.len() == 11 && "ecircumflex"@[0] == 'e' && "ecircumflex"@[1] == 'c' && "ecircumflex"@[2] == 'i' && "ecircumflex"@[3] == 'r' && "ecircumflex"@[4] == 'c' && "ecircumflex"@[5] == 'u' && "ecircumflex"@[6] == 'm' && "ecircumflex"@[7] == 'f' && "ecircumflex"@[8] == 'l' && "ecircumflex"@[9] == 'e' && "ecircumflex"@[10] == 'x');
    reveal_strlit("edieresis");
    assert("edieresis"@.len() == 9 && "edieresis"@[0] == 'e' && "edieresis"@[1] == 'd' && "edieresis"@[2] == 'i' && "edieresis"@[3] == 'e' && "edieresis"@[4] == 'r' && "edieresis"@[5] == 'e' && "edieresis"@[6] == 's' && "edieresis"@[7] == 'i' && "edieresis"@[8] == 's');
    reveal_strlit("egrave");
    assert("egrave"@.len() == 6 && "egrave"@[0] == 'e' && "egrave"@[1] == 'g' && "egrave"@[2] == 'r' && "egrave"@[3] == 'a' && "egrave"@[4] == 'v' && "egrave"@[5] == 'e');
    reveal_strlit("eight");
    assert("eight"@.len() == 5 && "eight"@[0] == 'e' && "eight"@[1] == 'i' && "eight"@[2] == 'g' && "eight"@[3] == 'h' && "eight"@[4] == 't');
    reveal_strlit("ellipsis");
    assert("ellipsis"@.len() == 8 && "ellipsis"@[0] == 'e' && "ellipsis"@[1] == 'l' && "ellipsis"@[2] == 'l' && "ellipsis"@[3] == 'i' && "ellipsis"@[4] == 'p' && "ellipsis"@[5] == 's' && "ellipsis"@[6] == 'i' && "ellipsis"@[7] == 's');
    reveal_strlit("emdash");
    assert("emdash"@.len() == 6 && "emdash"@[0] == 'e' && "emdash"@[1] == 'm' && "emdash"@[2] == 'd' && "emdash"@[3] == 'a' && "emdash"@[4] == 's' && "emdash"@[5] == 'h');
    reveal_strlit("endash");
    assert("endash"@.len() == 6 && "endash"@[0] == 'e' && "endash"@[1] == 'n' && "endash"@[2] == 'd' && "endash"@[3] == 'a' && "endash"@[4] == 's' && "endash"@[5] == 'h');
    reveal_strlit("equal");
    assert("equal"@.len() == 5 && "equal"@[0] == 'e' && "equal"@[1] == 'q' && "equal"@[2] == 'u' && "equal"@[3] == 'a' && "equal"@[4] == 'l');
    reveal_strlit("eth");
    assert("eth"@.len() == 3 && "eth"@[0] == 'e' && "eth"@[1] == 't' && "eth"@[2] == 'h');
    reveal_strlit("exclam");
    assert("exclam"@.len() == 6 && "exclam"@[0] == 'e' && "exclam"@[1] == 'x' && "exclam"@[2] == 'c' && "exclam"@[3] == 'l' && "exclam"@[4] == 'a' && "exclam"@[5] == 'm');
    reveal_strlit("exclamdown");
    assert("exclamdown"@.len() == 10 && "exclamdown"@[0] == 'e' && "exclamdown"@[1] == 'x' && "exclamdown"@[2] == 'c' && "exclamdown"@[3] == 'l' && "exclamdown"@[4] == 'a' && "exclamdown"@[5] == 'm' && "exclamdown"@[6] == 'd' && "exclamdown"@[7] == 'o' && "exclamdown"@[8] == 'w' && "exclamdown"@[9] == 'n');
    reveal_strlit("f");
    assert("f"@.len() == 1 && "f"@[0] == 'f');
    reveal_strlit("five");
    assert("five"@.len() == 4 && "five"@[0] == 'f' && "five"@[1] == 'i' && "five"@[2] == 'v' && "five"@[3] == 'e');
    reveal_strlit("florin");
    assert("florin"@.len() == 6 && "florin"@[0] == 'f' && "florin"@[1] == 'l' && "florin"@[2] == 'o' && "florin"@[3] == 'r' && "florin"@[4] == 'i' && "florin"@[5] == 'n');
    reveal_strlit("four");
    assert("four"@.len() == 4 && "four"@[0] == 'f' && "four"@[1] == 'o' && "four"@[2] == 'u' && "four"@[3] == 'r');
    reveal_strlit("g");
    assert("g"@.len() == 1 && "g"@[0] == 'g');
    reveal_strlit("germandbls");
    assert("germandbls"@.len() == 10 && "germandbls"@[0] == 'g' && "germandbls"@[1] == 'e' && "germandbls"@[2] == 'r' && "germandbls"@[3] == 'm' && "germandbls"@[4] == 'a' && "germandbls"@[5] == 'n' && "germandbls"@[6] == 'd' && "germandbls"@[7] == 'b' && "germandbls"@[8] == 'l' && "germandbls"@[9] == 's');
    reveal_strlit("grave");
    assert("grave"@.len() == 5 && "grave"@[0] == 'g' && "grave"@[1] == 'r' && "grave"@[2] == 'a' && "grave"@[3] == 'v' && "grave"@[4] == 'e');
    reveal_strlit("greater");
    assert("greater"@.len() == 7 && "greater"@[0] == 'g' && "greater"@[1] == 'r' && "greater"@[2] == 'e' && "greater"@[3] == 'a' && "greater"@[4] == 't' && "greater"@[5] == 'e' && "greater"@[6] == 'r');
    reveal_strlit("guillemotleft");
    assert("guillemotleft"@.len() == 13 && "guillemotleft"@[0] == 'g' && "guillemotleft"@[1] == 'u' && "guillemotleft"@[2] == 'i' && "guillemotleft"@[3] == 'l' && "guillemotleft"@[4] == 'l' && "guillemotleft"@[5] == 'e' && "guillemotleft"@[6] == 'm' && "guillemotleft"@[7] == 'o' && "guillemotleft"@[8] == 't' && "guillemotleft"@[9] == 'l' && "guillemotleft"@[10] == 'e' && "guillemotleft"@[11] == 'f' && "guillemotleft"@[12] == 't');
    reveal_strlit("guillemotright");
    assert("guillemotright"@.len() == 14 && "guillemotright"@[0] == 'g' && "guillemotright"@[1] == 'u' && "guillemotright"@[2] == 'i' && "guillemotright"@[3] == 'l' && "guillemotright"@[4] == 'l' && "guillemotright"@[5] == 'e' && "guillemotright"@[6] == 'm' && "guillemotright"@[7] == 'o' && "guillemotright"@[8] == 't' && "guillemotright"@[9] == 'r' && "guillemotright"@[10] == 'i' && "guillemotright"@[11] == 'g' && "guillemotright"@[12] == 'h' && "guillemotright"@[13] == 't');
    reveal_strlit("guilsinglleft");
    assert("guilsinglleft"@.len() == 13 && "guilsinglleft"@[0] == 'g' && "guilsinglleft"@[1] == 'u' && "guilsinglleft"@[2] == 'i' && "guilsinglleft"@[3] == 'l' && "guilsinglleft"@[4] == 's' && "guilsinglleft"@[5] == 'i' && "guilsinglleft"@[6] == 'n' && "guilsinglleft"@[7] == 'g' && "guilsinglleft"@[8] == 'l' && "guilsinglleft"@[9] == 'l' && "guilsinglleft"@[10] == 'e' && "guilsinglleft"@[11] == 'f' && "guilsinglleft"@[12] == 't');
    reveal_strlit("guilsinglright");
    assert("guilsinglright"@.len() == 14 && "guilsinglright"@[0] == 'g' && "guilsinglright"@[1] == 'u' && "guilsinglright"@[2] == 'i' && "guilsinglright"@[3] == 'l' && "guilsinglright"@[4] == 's' && "guilsinglright"@[5] == 'i' && "guilsinglright"@[6] == 'n' && "guilsinglright"@[7] == 'g' && "guilsinglright"@[8] == 'l' && "guilsinglright"@[9] == 'r' && "guilsinglright"@[10] == 'i' && "guilsinglright"@[11] == 'g' && "guilsinglright"@[12] == 'h' && "guilsinglright"@[13] == 't');
    reveal_strlit("h");
    assert("h"@.len() == 1 && "h"@[0] == 'h');
    reveal_strlit("hyphen");
    assert("hyphen"@.len() == 6 && "hyphen"@[0] == 'h' && "hyphen"@[1] == 'y' && "hyphen"@[2] == 'p' && "hyphen"@[3] == 'h' && "hyphen"@[4] == 'e' && "hyphen"@[5] == 'n');
    reveal_strlit("i");
    assert("i"@.len() == 1 && "i"@[0] == 'i');
    reveal_strlit("iacute");
    assert("iacute"@.len() == 6 && "iacute"@[0] == 'i' && "iacute"@[1] == 'a' && "iacute"@[2] == 'c' && "iacute"@[3] == 'u' && "iacute"@[4] == 't' && "iacute"@[5] == 'e');
    reveal_strlit("icircumflex");
    assert("icircumflex"@.len() == 11 && "icircumflex"@[0] == 'i' && "icircumflex"@[1] == 'c' && "icircumflex"@[2] == 'i' && "icircumflex"@[3] == 'r' && "icircumflex"@[4] == 'c' && "icircumflex"@[5] == 'u' && "icircumflex"@[6] == 'm' && "icircumflex"@[7] == 'f' && "icircumflex"@[8] == 'l' && "icircumflex"@[9] == 'e' && "icircumflex"@[10] == 'x');
    reveal_strlit("idieresis");
    assert("idieresis"@.len() == 9 && "idieresis"@[0] == 'i' && "idieresis"@[1] == 'd' && "idieresis"@[2] == 'i' && "idieresis"@[3] == 'e' && "idieresis"@[4] == 'r' && "idieresis"@[5] == 'e' && "idieresis"@[6] == 's' && "idieresis"@[7] == 'i' && "idieresis"@[8] == 's');
    reveal_strlit("igrave");
    assert("igrave"@.len() == 6 && "igrave"@[0] == 'i' && "igrave"@[1] == 'g' && "igrave"@[2] == 'r' && "igrave"@[3] == 'a' && "igrave"@[4] == 'v' && "igrave"@[5] == 'e');
    reveal_strlit("j");
    assert("j"@.len() == 1 && "j"@[0] == 'j');
    reveal_strlit("k");
    assert("k"@.len() == 1 && "k"@[0] == 'k');
    reveal_strlit("l");
    assert("l"@.len() == 1 && "l"@[0] == 'l');
    reveal_strlit("less");
    assert("less"@.len() == 4 && "less"@[0] == 'l' && "less"@[1] == 'e' && "less"@[2] == 's' && "less"@[3] == 's');
    reveal_strlit("logicalnot");
    assert("logicalnot"@.len() == 10 && "logicalnot"@[0] == 'l' && "logicalnot"@[1] == 'o' && "logicalnot"@[2] == 'g' && "logicalnot"@[3] == 'i' && "logicalnot"@[4] == 'c' && "logicalnot"@[5] == 'a' && "logicalnot"@[6] == 'l' && "logicalnot"@[7] == 'n' && "logicalnot"@[8] == 'o' && "logicalnot"@[9] == 't');
    reveal_strlit("m");
    assert("m"@.len() == 1 && "m"@[0] == 'm');
    reveal_strlit("macron");
    assert("macron"@.len() == 6 && "macron"@[0] == 'm' && "macron"@[1] == 'a' && "macron"@[2] == 'c' && "macron"@[3] == 'r' && "macron"@[4] == 'o' && "macron"@[5] == 'n');
    reveal_strlit("mu");
    assert("mu"@.len() == 2 && "mu"@[0] == 'm' && "mu"@[1] == 'u');
    reveal_strlit("multiply");
    assert("multiply"@.len() == 8 && "multiply"@[0] == 'm' && "multiply"@[1] == 'u' && "multiply"@[2] == 'l' && "multiply"@[3] == 't' && "multiply"@[4] == 'i' && "multiply"@[5] == 'p' && "multiply"@[6] == 'l' && "multiply"@[7] == 'y');
    reveal_strlit("n");
    assert("n"@.len() == 1 && "n"@[0] == 'n');
    reveal_strlit("nine");
    assert("nine"@.len() == 4 && "nine"@[0] == 'n' && "nine"@[1] == 'i' && "nine"@[2] == 'n' && "nine"@[3] == 'e');
    reveal_strlit("ntilde");
    assert("ntilde"@.len() == 6 && "ntilde"@[0] == 'n' && "ntilde"@[1] == 't' && "ntilde"@[2] == 'i' && "ntilde"@[3] == 'l' && "ntilde"@[4] == 'd' && "ntilde"@[5] == 'e');
    reveal_strlit("numbersign");
    assert("numbersign"@.len() == 10 && "numbersign"@[0] == 'n' && "numbersign"@[1] == 'u' && "numbersign"@[2] == 'm' && "numbersign"@[3] == 'b' && "numbersign"@[4] == 'e' && "numbersign"@[5] == 'r' && "numbersign"@[6] == 's' && "numbersign"@[7] == 'i' && "numbersign"@[8] == 'g' && "numbersign"@[9] == 'n');
    reveal_strlit("o");
    assert("o"@.len() == 1 && "o"@[0] == 'o');
    reveal_strlit("oacute");
    assert("oacute"@.len() == 6 && "oacute"@[0] == 'o' && "oacute"@[1] == 'a' && "oacute"@[2] == 'c' && "oacute"@[3] == 'u' && "oacute"@[4] == 't' && "oacute"@[5] == 'e');
    reveal_strlit("ocircumflex");
    assert("ocircumflex"@.len() == 11 && "ocircumflex"@[0] == 'o' && "ocircumflex"@[1] == 'c' && "ocircumflex"@[2] == 'i' && "ocircumflex"@[3] == 'r' && "ocircumflex"@[4] == 'c' && "ocircumflex"@[5] == 'u' && "ocircumflex"@[6] == 'm' && "ocircumflex"@[7] == 'f' && "ocircumflex"@[8] == 'l' && "ocircumflex"@[9] == 'e' && "ocircumflex"@[10] == 'x');
    reveal_strlit("odieresis");
    assert("odieresis"@.len() == 9 && "odieresis"@[0] == 'o' && "odieresis"@[1] == 'd' && "odieresis"@[2] == 'i' && "odieresis"@[3] == 'e' && "odieresis"@[4] == 'r' && "odieresis"@[5] == 'e' && "odieresis"@[6] == 's' && "odieresis"@[7] == 'i' && "odieresis"@[8] == 's');
    reveal_strlit("oe");
    assert("oe"@.len() == 2 && "oe"@[0] == 'o' && "oe"@[1] == 'e');
    reveal_strlit("ograve");
    assert("ograve"@.len() == 6 && "ograve"@[0] == 'o' && "ograve"@[1] == 'g' && "ograve"@[2] == 'r' && "ograve"@[3] == 'a' && "ograve"@[4] == 'v' && "ograve"@[5] == 'e');
    reveal_strlit("one");
    assert("one"@.len() == 3 && "one"@[0] == 'o' && "one"@[1] == 'n' && "one"@[2] == 'e');
    reveal_strlit("onehalf");
    assert("onehalf"@.len() == 7 && "onehalf"@[0] == 'o' && "onehalf"@[1] == 'n' && "onehalf"@[2] == 'e' && "onehalf"@[3] == 'h' && "onehalf"@[4] == 'a' && "onehalf"@[5] == 'l' && "onehalf"@[6] == 'f');
    reveal_strlit("onequarter");
    assert("onequarter"@.len() == 10 && "onequarter"@[0] == 'o' && "onequarter"@[1] == 'n' && "onequarter"@[2] == 'e' && "onequarter"@[3] == 'q' && "onequarter"@[4] == 'u' && "onequarter"@[5] == 'a' && "onequarter"@[6] == 'r' && "onequarter"@[7] == 't' && "onequarter"@[8] == 'e' && "onequarter"@[9] == 'r');
    reveal_strlit("onesuperior");
    assert("onesuperior"@.len() == 11 && "onesuperior"@[0] == 'o' && "onesuperior"@[1] == 'n' && "onesuperior"@[2] == 'e' && "onesuperior"@[3] == 's' && "onesuperior"@[4] == 'u' && "onesuperior"@[5] == 'p' && "onesuperior"@[6] == 'e' && "onesuperior"@[7] == 'r' && "onesuperior"@[8] == 'i' && "onesuperior"@[9] == 'o' && "onesuperior"@[10] == 'r');
    reveal_strlit("ordfeminine");
    assert("ordfeminine"@.len() == 11 && "ordfeminine"@[0] == 'o' && "ordfeminine"@[1] == 'r' && "ordfeminine"@[2] == 'd' && "ordfeminine"@[3] == 'f' && "ordfeminine"@[4] == 'e' && "ordfeminine"@[5] == 'm' && "ordfeminine"@[6] == 'i' && "ordfeminine"@[7] == 'n' && "ordfeminine"@[8] == 'i' && "ordfeminine"@[9] == 'n' && "ordfeminine"@[10] == 'e');
    reveal_strlit("ordmasculine");
    assert("ordmasculine"@.len() == 12 && "ordmasculine"@[0] == 'o' && "ordmasculine"@[1] == 'r' && "ordmasculine"@[2] == 'd' && "ordmasculine"@[3] == 'm' && "ordmasculine"@[4] == 'a' && "ordmasculine"@[5] == 's' && "ordmasculine"@[6] == 'c' && "ordmasculine"@[7] == 'u' && "ordmasculine"@[8] == 'l' && "ordmasculine"@[9] == 'i' && "ordmasculine"@[10] == 'n' && "ordmasculine"@[11] == 'e');
    reveal_strlit("oslash");
    assert("oslash"@.len() == 6 && "oslash"@[0] == 'o' && "oslash"@[1] == 's' && "oslash"@[2] == 'l' && "oslash"@[3] == 'a' && "oslash"@[4] == 's' && "oslash"@[5] == 'h');
    reveal_strlit("otilde");
    assert("otilde"@.len() == 6 && "otilde"@[0] == 'o' && "otilde"@[1] == 't' && "otilde"@[2] == 'i' && "otilde"@[3] == 'l' && "otilde"@[4] == 'd' && "otilde"@[5] == 'e');
    reveal_strlit("p");
    assert("p"@.len() == 1 && "p"@[0] == 'p');
    reveal_strlit("paragraph");
    assert("paragraph"@.len() == 9 && "paragraph"@[0] == 'p' && "paragraph"@[1] == 'a' && "paragraph"@[2] == 'r' && "paragraph"@[3] == 'a' && "paragraph"@[4] == 'g' && "paragraph"@[5] == 'r' && "paragraph"@[6] == 'a' && "paragraph"@[7] == 'p' && "paragraph"@[8] == 'h');
    reveal_strlit("parenleft");
    assert("parenleft"@.len() == 9 && "parenleft"@[0] == 'p' && "parenleft"@[1] == 'a' && "parenleft"@[2] == 'r' && "parenleft"@[3] == 'e' && "parenleft"@[4] == 'n' && "parenleft"@[5] == 'l' && "parenleft"@[6] == 'e' && "parenleft"@[7] == 'f' && "parenleft"@[8] == 't');
    reveal_strlit("parenright");
    assert("parenright"@.len() == 10 && "parenright"@[0] == 'p' && "parenright"@[1] == 'a' && "parenright"@[2] == 'r' && "parenright"@[3] == 'e' && "parenright"@[4] == 'n' && "parenright"@[5] == 'r' && "parenright"@[6] == 'i' && "parenright"@[7] == 'g' && "parenright"@[8] == 'h' && "parenright"@[9] == 't');
    reveal_strlit("percent");
    assert("percent"@.len() == 7 && "percent"@[0] == 'p' && "percent"@[1] == 'e' && "percent"@[2] == 'r' && "percent"@[3] == 'c' && "percent"@[4] == 'e' && "percent"@[5] == 'n' && "percent"@[6] == 't');
    reveal_strlit("period");
    assert("period"@.len() == 6 && "period"@[0] == 'p' && "period"@[1] == 'e' && "period"@[2] == 'r' && "period"@[3] == 'i' && "period"@[4] == 'o' && "period"@[5] == 'd');
    reveal_strlit("periodcentered");
    assert("periodcentered"@.len() == 14 && "periodcentered"@[0] == 'p' && "periodcentered"@[1] == 'e' && "periodcentered"@[2] == 'r' && "periodcentered"@[3] == 'i' && "periodcentered"@[4] == 'o' && "periodcentered"@[5] == 'd' && "periodcentered"@[6] == 'c' && "periodcentered"@[7] == 'e' && "periodcentered"@[8] == 'n' && "periodcentered"@[9] == 't' && "periodcentered"@[10] == 'e' && "periodcentered"@[11] == 'r' && "periodcentered"@[12] == 'e' && "periodcentered"@[13] == 'd');
    reveal_strlit("perthousand");
    assert("perthousand"@.len() == 11 && "perthousand"@[0] == 'p' && "perthousand"@[1] == 'e' && "perthousand"@[2] == 'r' && "perthousand"@[3] == 't' && "perthousand"@[4] == 'h' && "perthousand"@[5] == 'o' && "perthousand"@[6] == 'u' && "perthousand"@[7] == 's' && "perthousand"@[8] == 'a' && "perthousand"@[9] == 'n' && "perthousand"@[10] == 'd');
    reveal_strlit("plus");
    assert("plus"@.len() == 4 && "plus"@[0] == 'p' && "plus"@[1] == 'l' && "plus"@[2] == 'u' && "plus"@[3] == 's');
    reveal_strlit("plusminus");
    assert("plusminus"@.len() == 9 && "plusminus"@[0] == 'p' && "plusminus"@[1] == 'l' && "plusminus"@[2] == 'u' && "plusminus"@[3] == 's' && "plusminus"@[4] == 'm' && "plusminus"@[5] == 'i' && "plusminus"@[6] == 'n' && "plusminus"@[7] == 'u' && "plusminus"@[8] == 's');
    reveal_strlit("q");
    assert("q"@.len() == 1 && "q"@[0] == 'q');
    reveal_strlit("question");
    assert("question"@.len() == 8 && "question"@[0] == 'q' && "question"@[1] == 'u' && "question"@[2] == 'e' && "question"@[3] == 's' && "question"@[4] == 't' && "question"@[5] == 'i' && "question"@[6] == 'o' && "question"@[7] == 'n');
    reveal_strlit("questiondown");
    assert("questiondown"@.len() == 12 && "questiondown"@[0] == 'q' && "questiondown"@[1] == 'u' && "questiondown"@[2] == 'e' && "questiondown"@[3] == 's' && "questiondown"@[4] == 't' && "questiondown"@[5] == 'i' && "questiondown"@[6] == 'o' && "questiondown"@[7] == 'n' && "questiondown"@[8] == 'd' && "questiondown"@[9] == 'o' && "questiondown"@[10] == 'w' && "questiondown"@[11] == 'n');
    reveal_strlit("quotedbl");
    assert("quotedbl"@.len() == 8 && "quotedbl"@[0] == 'q' && "quotedbl"@[1] == 'u' && "quotedbl"@[2] == 'o' && "quotedbl"@[3] == 't' && "quotedbl"@[4] == 'e' && "quotedbl"@[5] == 'd' && "quotedbl"@[6] == 'b' && "quotedbl"@[7] == 'l');
    reveal_strlit("quotedblbase");
    assert("quotedblbase"@.len() == 12 && "quotedblbase"@[0] == 'q' && "quotedblbase"@[1] == 'u' && "quotedblbase"@[2] == 'o' && "quotedblbase"@[3] == 't' && "quotedblbase"@[4] == 'e' && "quotedblbase"@[5] == 'd' && "quotedblbase"@[6] == 'b' && "quotedblbase"@[7] == 'l' && "quotedblbase"@[8] == 'b' && "quotedblbase"@[9] == 'a' && "quotedblbase"@[10] == 's' && "quotedblbase"@[11] == 'e');
    reveal_strlit("quotedblleft");
    assert("quotedblleft"@.len() == 12 && "quotedblleft"@[0] == 'q' && "quotedblleft"@[1] == 'u' && "quotedblleft"@[2] == 'o' && "quotedblleft"@[3] == 't' && "quotedblleft"@[4] == 'e' && "quotedblleft"@[5] == 'd' && "quotedblleft"@[6] == 'b' && "quotedblleft"@[7] == 'l' && "quotedblleft"@[8] == 'l' && "quotedblleft"@[9] == 'e' && "quotedblleft"@[10] == 'f' && "quotedblleft"@[11] == 't');
    reveal_strlit("quotedblright");
    assert("quotedblright"@.len() == 13 && "quotedblright"@[0] == 'q' && "quotedblright"@[1] == 'u' && "quotedblright"@[2] == 'o' && "quotedblright"@[3] == 't' && "quotedblright"@[4] == 'e' && "quotedblright"@[5] == 'd' && "quotedblright"@[6] == 'b' && "quotedblright"@[7] == 'l' && "quotedblright"@[8] == 'r' && "quotedblright"@[9] == 'i' && "quotedblright"@[10] == 'g' && "quotedblright"@[11] == 'h' && "quotedblright"@[12] == 't');
    reveal_strlit("quoteleft");
    assert("quoteleft"@.len() == 9 && "quoteleft"@[0] == 'q' && "quoteleft"@[1] == 'u' && "quoteleft"@[2] == 'o' && "quoteleft"@[3] == 't' && "quoteleft"@[4] == 'e' && "quoteleft"@[5] == 'l' && "quoteleft"@[6] == 'e' && "quoteleft"@[7] == 'f' && "quoteleft"@[8] == 't');
    reveal_strlit("quoteright");
    assert("quoteright"@.len() == 10 && "quoteright"@[0] == 'q' && "quoteright"@[1] == 'u' && "quoteright"@[2] == 'o' && "quoteright"@[3] == 't' && "quoteright"@[4] == 'e' && "quoteright"@[5] == 'r' && "quoteright"@[6] == 'i' && "quoteright"@[7] == 'g' && "quoteright"@[8] == 'h' && "quoteright"@[9] == 't');
    reveal_strlit("quotesinglbase");
    assert("quotesinglbase"@.len() == 14 && "quotesinglbase"@[0] == 'q' && "quotesinglbase"@[1] == 'u' && "quotesinglbase"@[2] == 'o' && "quotesinglbase"@[3] == 't' && "quotesinglbase"@[4] == 'e' && "quotesinglbase"@[5] == 's' && "quotesinglbase"@[6] == 'i' && "quotesinglbase"@[7] == 'n' && "quotesinglbase"@[8] == 'g' && "quotesinglbase"@[9] == 'l' && "quotesinglbase"@[10] == 'b' && "quotesinglbase"@[11] == 'a' && "quotesinglbase"@[12] == 's' && "quotesinglbase"@[13] == 'e');
    reveal_strlit("quotesingle");
    assert("quotesingle"@.len() == 11 && "quotesingle"@[0] == 'q' && "quotesingle"@[1] == 'u' && "quotesingle"@[2] == 'o' && "quotesingle"@[3] == 't' && "quotesingle"@[4] == 'e' && "quotesingle"@[5] == 's' && "quotesingle"@[6] == 'i' && "quotesingle"@[7] == 'n' && "quotesingle"@[8] == 'g' && "quotesingle"@[9] == 'l' && "quotesingle"@[10] == 'e');
    reveal_strlit("r");
    assert("r"@.len() == 1 && "r"@[0] == 'r');
    reveal_strlit("registered");
    assert("registered"@.len() == 10 && "registered"@[0] == 'r' && "registered"@[1] == 'e' && "registered"@[2] == 'g' && "registered"@[3] == 'i' && "registered"@[4] == 's' && "registered"@[5] == 't' && "registered"@[6] == 'e' && "registered"@[7] == 'r' && "registered"@[8] == 'e' && "registered"@[9] == 'd');
    reveal_strlit("s");
    assert("s"@.len() == 1 && "s"@[0] == 's');
    reveal_strlit("scaron");
    assert("scaron"@.len() == 6 && "scaron"@[0] == 's' && "scaron"@[1] == 'c' && "scaron"@[2] == 'a' && "scaron"@[3] == 'r' && "scaron"@[4] == 'o' && "scaron"@[5] == 'n');
    reveal_strlit("section");
    assert("section"@.len() == 7 && "section"@[0] == 's' && "section"@[1] == 'e' && "section"@[2] == 'c' && "section"@[3] == 't' && "section"@[4] == 'i' && "section"@[5] == 'o' && "section"@[6] == 'n');
    reveal_strlit("semicolon");
    assert("semicolon"@.len() == 9 && "semicolon"@[0] == 's' && "semicolon"@[1] == 'e' && "semicolon"@[2] == 'm' && "semicolon"@[3] == 'i' && "semicolon"@[4] == 'c' && "semicolon"@[5] == 'o' && "semicolon"@[6] == 'l' && "semicolon"@[7] == 'o' && "semicolon"@[8] == 'n');
    reveal_strlit("seven");
    assert("seven"@.len() == 5 && "seven"@[0] == 's' && "seven"@[1] == 'e' && "seven"@[2] == 'v' && "seven"@[3] == 'e' && "seven"@[4] == 'n');
    reveal_strlit("six");
    assert("six"@.len() == 3 && "six"@[0] == 's' && "six"@[1] == 'i' && "six"@[2] == 'x');
    reveal_strlit("slash");
    assert("slash"@.len() == 5 && "slash"@[0] == 's' && "slash"@[1] == 'l' && "slash"@[2] == 'a' && "slash"@[3] == 's' && "slash"@[4] == 'h');
    reveal_strlit("space");
    assert("space"@.len() == 5 && "space"@[0] == 's' && "space"@[1] == 'p' && "space"@[2] == 'a' && "space"@[3] == 'c' && "space"@[4] == 'e');
    reveal_strlit("sterling");
    assert("sterling"@.len() == 8 && "sterling"@[0] == 's' && "sterling"@[1] == 't' && "sterling"@[2] == 'e' && "sterling"@[3] == 'r' && "sterling"@[4] == 'l' && "sterling"@[5] == 'i' && "sterling"@[6] == 'n' && "sterling"@[7] == 'g');
    reveal_strlit("t");
    assert("t"@.len() == 1 && "t"@[0] == 't');
    reveal_strlit("thorn");
    assert("thorn"@.len() == 5 && "thorn"@[0] == 't' && "thorn"@[1] == 'h' && "thorn"@[2] == 'o' && "thorn"@[3] == 'r' && "thorn"@[4] == 'n');
    reveal_strlit("three");
    assert("three"@.len() == 5 && "three"@[0] == 't' && "three"@[1] == 'h' && "three"@[2] == 'r' && "three"@[3] == 'e' && "three"@[4] == 'e');
    reveal_strlit("threequarters");
    assert("threequarters"@.len() == 13 && "threequarters"@[0] == 't' && "threequarters"@[1] == 'h' && "threequarters"@[2] == 'r' && "threequarters"@[3] == 'e' && "threequarters"@[4] == 'e' && "threequarters"@[5] == 'q' && "threequarters"@[6] == 'u' && "threequarters"@[7] == 'a' && "threequarters"@[8] == 'r' && "threequarters"@[9] == 't' && "threequarters"@[10] == 'e' && "threequarters"@[11] == 'r' && "threequarters"@[12] == 's');
    reveal_strlit("threesuperior");
    assert("threesuperior"@.len() == 13 && "threesuperior"@[0] == 't' && "threesuperior"@[1] == 'h' && "threesuperior"@[2] == 'r' && "threesuperior"@[3] == 'e' && "threesuperior"@[4] == 'e' && "threesuperior"@[5] == 's' && "threesuperior"@[6] == 'u' && "threesuperior"@[7] == 'p' && "threesuperior"@[8] == 'e' && "threesuperior"@[9] == 'r' && "threesuperior"@[10] == 'i' && "threesuperior"@[11] == 'o' && "threesuperior"@[12] == 'r');
    reveal_strlit("tilde");
    assert("tilde"@.len() == 5 && "tilde"@[0] == 't' && "tilde"@[1] == 'i' && "tilde"@[2] == 'l' && "tilde"@[3] == 'd' && "tilde"@[4] == 'e');
    reveal_strlit("trademark");
    assert("trademark"@.len() == 9 && "trademark"@[0] == 't' && "trademark"@[1] == 'r' && "trademark"@[2] == 'a' && "trademark"@[3] == 'd' && "trademark"@[4] == 'e' && "trademark"@[5] == 'm' && "trademark"@[6] == 'a' && "trademark"@[7] == 'r' && "trademark"@[8] == 'k');
    reveal_strlit("two");
    assert("two"@.len() == 3 && "two"@[0] == 't' && "two"@[1] == 'w' && "two"@[2] == 'o');
    reveal_strlit("twosuperior");
    assert("twosuperior"@.len() == 11 && "twosuperior"@[0] == 't' && "twosuperior"@[1] == 'w' && "twosuperior"@[2] == 'o' && "twosuperior"@[3] == 's' && "twosuperior"@[4] == 'u' && "twosuperior"@[5] == 'p' && "twosuperior"@[6] == 'e' && "twosuperior"@[7] == 'r' && "twosuperior"@[8] == 'i' && "twosuperior"@[9] == 'o' && "twosuperior"@[10] == 'r');
    reveal_strlit("u");
    assert("u"@.len() == 1 && "u"@[0] == 'u');
    reveal_strlit("uacute");
    assert("uacute"@.len() == 6 && "uacute"@[0] == 'u' && "uacute"@[1] == 'a' && "uacute"@[2] == 'c' && "uacute"@[3] == 'u' && "uacute"@[4] == 't' && "uacute"@[5] == 'e');
    reveal_strlit("ucircumflex");
    assert("ucircumflex"@.len() == 11 && "ucircumflex"@[0] == 'u' && "ucircumflex"@[1] == 'c' && "ucircumflex"@[2] == 'i' && "ucircumflex"@[3] == 'r' && "ucircumflex"@[4] == 'c' && "ucircumflex"@[5] == 'u' && "ucircumflex"@[6] == 'm' && "ucircumflex"@[7] == 'f' && "ucircumflex"@[8] == 'l' && "ucircumflex"@[9] == 'e' && "ucircumflex"@[10] == 'x');
    reveal_strlit("udieresis");
    assert("udieresis"@.len() == 9 && "udieresis"@[0] == 'u' && "udieresis"@[1] == 'd' && "udieresis"@[2] == 'i' && "udieresis"@[3] == 'e' && "udieresis"@[4] == 'r' && "udieresis"@[5] == 'e' && "udieresis"@[6] == 's' && "udieresis"@[7] == 'i' && "udieresis"@[8] == 's');
    reveal_strlit("ugrave");
    assert("ugrave"@.len() == 6 && "ugrave"@[0] == 'u' && "ugrave"@[1] == 'g' && "ugrave"@[2] == 'r' && "ugrave"@[3] == 'a' && "ugrave"@[4] == 'v' && "ugrave"@[5] == 'e');
    reveal_strlit("underscore");
    assert("underscore"@.len() == 10 && "underscore"@[0] == 'u' && "underscore"@[1] == 'n' && "underscore"@[2] == 'd' && "underscore"@[3] == 'e' && "underscore"@[4] == 'r' && "underscore"@[5] == 's' && "underscore"@[6] == 'c' && "underscore"@[7] == 'o' && "underscore"@[8] == 'r' && "underscore"@[9] == 'e');
    reveal_strlit("v");
    assert("v"@.len() == 1 && "v"@[0] == 'v');
    reveal_strlit("w");
    assert("w"@.len() == 1 && "w"@[0] == 'w');
    reveal_strlit("x");
    assert("x"@.len() == 1 && "x"@[0] == 'x');
    reveal_strlit("y");
    assert("y"@.len() == 1 && "y"@[0] == 'y');
    reveal_strlit("yacute");
    assert("yacute"@.len() == 6 && "yacute"@[0] == 'y' && "yacute"@[1] == 'a' && "yacute"@[2] == 'c' && "yacute"@[3] == 'u' && "yacute"@[4] == 't' && "yacute"@[5] == 'e');
    reveal_strlit("ydieresis");
    assert("ydieresis"@.len() == 9 && "ydieresis"@[0] == 'y' && "ydieresis"@[1] == 'd' && "ydieresis"@[2] == 'i' && "ydieresis"@[3] == 'e' && "ydieresis"@[4] == 'r' && "ydieresis"@[5] == 'e' && "ydieresis"@[6] == 's' && "ydieresis"@[7] == 'i' && "ydieresis"@[8] == 's');
    reveal_strlit("yen");
    assert("yen"@.len() == 3 && "yen"@[0] == 'y' && "yen"@[1] == 'e' && "yen"@[2] == 'n');
    reveal_strlit("z");
    assert("z"@.len() == 1 && "z"@[0] == 'z');
    reveal_strlit("zcaron");
    assert("zcaron"@.len() == 6 && "zcaron"@[0] == 'z' && "zcaron"@[1] == 'c' && "zcaron"@[2] == 'a' && "zcaron"@[3] == 'r' && "zcaron"@[4] == 'o' && "zcaron"@[5] == 'n');
    reveal_strlit("zero");
    assert("zero"@.len() == 4 && "zero"@[0] == 'z' && "zero"@[1] == 'e' && "zero"@[2] == 'r' && "zero"@[3] == 'o');
    assert(win_ansi_pairs().len() == 223);
    assert(win_ansi_pairs()[16] == ("zero"@, 48u8));
    assert(range_free(win_ansi_pairs(), "zero"@, 17, 25)) by {
        reveal_with_fuel(range_free, 10);
    }
    assert(range_free(win_ansi_pairs(), "zero"@, 25, 33)) by {
        reveal_with_fuel(range_free, 10);
    }
    assert(range_free(win_ansi_pairs(), "zero"@, 33, 41)) by {
        reveal_with_fuel(range_free, 10);
    }
    assert(range_free(win_ansi_pairs(), "zero"@, 41, 49)) by {
        reveal_with_fuel(range_free, 10);
    }
    assert(range_free(win_ansi_pairs(), "zero"@, 49, 57)) by {
        reveal_with_fuel(range_free, 10);
    }
    assert(range_free(win_ansi_pairs(), "zero"@, 57, 65)) by {
        reveal_with_fuel(range_free, 10);
    }
    assert(range_free(win_ansi_pairs(), "zero"@, 65, 73)) by {
        reveal_with_fuel(range_free, 10);
    }
    assert(range_free(win_ansi_pairs(), "zero"@, 73, 81)) by {
        reveal_with_fuel(range_free, 10);
    }
    assert(range_free(win_ansi_pairs(), "zero"@, 81, 89)) by {
        reveal_with_fuel(range_free, 10);
    }
    assert(range_free(win_ansi_pairs(), "zero"@, 89, 97)) by {
        reveal_with_fuel(range_free, 10);
    }
    assert(range_free(win_ansi_pairs(), "zero"@, 97, 105)) by {
        reveal_with_fuel(range_free, 10);
    }
    assert(range_free(win_ansi_pairs(), "zero"@, 105, 113)) by {
        reveal_with_fuel(range_free, 10);
    }
    assert(range_free(win_ansi_pairs(), "zero"@, 113, 121)) by {
        reveal_with_fuel(range_free, 10);
    }
    assert(range_free(win_ansi_pairs(), "zero"@, 121, 129)) by {
        reveal_with_fuel(range_free, 10);
    }
    assert(range_free(win_ansi_pairs(), "zero"@, 129, 137)) by {
        reveal_with_fuel(range_free, 10);
    }
    assert(range_free(win_ansi_pairs(), "zero"@, 137, 145)) by {
        reveal_with_fuel(range_free, 10);
    }
    assert(range_free(win_ansi_pairs(), "zero"@, 145, 153)) by {
        reveal_with_fuel(range_free, 10);
    }
    assert(range_free(win_ansi_pairs(), "zero"@, 153, 161)) by {
        reveal_with_fuel(range_free, 10);
    }
    assert(range_free(win_ansi_pairs(), "zero"@, 161, 169)) by {
        reveal_with_fuel(range_free, 10);
    }
    assert(range_free(win_ansi_pairs(), "zero"@, 169, 177)) by {
        reveal_with_fuel(range_free, 10);
    }
    assert(range_free(win_ansi_pairs(), "zero"@, 177, 185)) by {
        reveal_with_fuel(range_free, 10);
    }
    assert(range_free(win_ansi_pairs(), "zero"@, 185, 193)) by {
        reveal_with_fuel(range_free, 10);
    }
    assert(range_free(win_ansi_pairs(), "zero"@, 193, 201)) by {
        reveal_with_fuel(range_free, 10);
    }
    assert(range_free(win_ansi_pairs(), "zero"@, 201, 209)) by {
        reveal_with_fuel(range_free, 10);
    }
    assert(range_free(win_ansi_pairs(), "zero"@, 209, 217)) by {
        reveal_with_fuel(range_free, 10);
    }
    assert(range_free(win_ansi_pairs(), "zero"@, 217, 223)) by {
        reveal_with_fuel(range_free, 10);
    }
    lemma_range_free_concat(win_ansi_pairs(), "zero"@, 209, 217, 223);
    lemma_range_free_concat(win_ansi_pairs(), "zero"@, 201, 209, 223);
    lemma_range_free_concat(win_ansi_pairs(), "zero"@, 193, 201, 223);
    lemma_range_free_concat(win_ansi_pairs(), "zero"@, 185, 193, 223);
    lemma_range_free_concat(win_ansi_pairs(), "zero"@, 177, 185, 223);
    lemma_range_free_concat(win_ansi_pairs(), "zero"@, 169, 177, 223);
    lemma_range_free_concat(win_ansi_pairs(), "zero"@, 161, 169, 223);
    lemma_range_free_concat(win_ansi_pairs(), "zero"@, 153, 161, 223);
    lemma_range_free_concat(win_ansi_pairs(), "zero"@, 145, 153, 223);
    lemma_range_free_concat(win_ansi_pairs(), "zero"@, 137, 145, 223);
    lemma_range_free_concat(win_ansi_pairs(), "zero"@, 129, 137, 223);
    lemma_range_free_concat(win_ansi_pairs(), "zero"@, 121, 129, 223);
    lemma_range_free_concat(win_ansi_pairs(), "zero"@, 113, 121, 223);
    lemma_range_free_concat(win_ansi_pairs(), "zero"@, 105, 113, 223);
    lemma_range_free_concat(win_ansi_pairs(), "zero"@, 97, 105, 223);
    lemma_range_free_concat(win_ansi_pairs(), "zero"@, 89, 97, 223);
    lemma_range_free_concat(win_ansi_pairs(), "zero"@, 81, 89, 223);
    lemma_range_free_concat(win_ansi_pairs(), "zero"@, 73, 81, 223);
    lemma_range_free_concat(win_ansi_pairs(), "zero"@, 65, 73, 223);
    lemma_range_free_concat(win_ansi_pairs(), "zero"@, 57, 65, 223);
    lemma_range_free_concat(win_ansi_pairs(), "zero"@, 49, 57, 223);
    lemma_range_free_concat(win_ansi_pairs(), "zero"@, 41, 49, 223);
    lemma_range_free_concat(win_ansi_pairs(), "zero"@, 33, 41, 223);
    lemma_range_free_concat(win_ansi_pairs(), "zero"@, 25, 33, 223);
    lemma_range_free_concat(win_ansi_pairs(), "zero"@, 17, 25, 223);
    lemma_range_free_all(win_ansi_pairs(), "zero"@, 17, 223);
    lemma_name_lookup_found(win_ansi_pairs(), "zero"@, 16);
    assert(win_ansi_pairs()[17] == ("one"@, 49u8));
    assert(range_free(win_ansi_pairs(), "one"@, 18, 26)) by {
        reveal_with_fuel(range_free, 10);
    }
    assert(range_free(win_ansi_pairs(), "one"@, 26, 34)) by {
        reveal_with_fuel(range_free, 10);
    }
    assert(range_free(win_ansi_pairs(), "one"@, 34, 42)) by {
        reveal_with_fuel(range_free, 10);
    }
    assert(range_free(win_ansi_pairs(), "one"@, 42, 50)) by {
        reveal_with_fuel(range_free, 10);
    }
    assert(range_free(win_ansi_pairs(), "one"@, 50, 58)) by {
        reveal_with_fuel(range_free, 10);
    }
    assert(range_free(win_ansi_pairs(), "one"@, 58, 66)) by {
        reveal_with_fuel(range_free, 10);
    }
    assert(range_free(win_ansi_pairs(), "one"@, 66, 74)) by {
        reveal_with_fuel(range_free, 10);
    }
    assert(range_free(win_ansi_pairs(), "one"@, 74, 82)) by {
        reveal_with_fuel(range_free, 10);
    }
    assert(range_free(win_ansi_pairs(), "one"@, 82, 90)) by {
        reveal_with_fuel(range_free, 10);
    }
    assert(range_free(win_ansi_pairs(), "one"@, 90, 98)) by {
        reveal_with_fuel(range_free, 10);
    }
    assert(range_free(win_ansi_pairs(), "one"@, 98, 106)) by {
        reveal_with_fuel(range_free, 10);
    }
    assert(range_free(win_ansi_pairs(), "one"@, 106, 114)) by {
        reveal_with_fuel(range_free, 10);
    }
    assert(range_free(win_ansi_pairs(), "one"@, 114, 122)) by {
        reveal_with_fuel(range_free, 10);
    }
    assert(range_free(win_ansi_pairs(), "one"@, 122, 130)) by {
        reveal_with_fuel(range_free, 10);
    }
    assert(range_free(win_ansi_pairs(), "one"@, 130, 138)) by {
        reveal_with_fuel(range_free, 10);
    }
    assert(range_free(win_ansi_pairs(), "one"@, 138, 146)) by {
        reveal_with_fuel(range_free, 10);
    }
    assert(range_free(win_ansi_pairs(), "one"@, 146, 154)) by {
        reveal_with_fuel(range_free, 10);
    }
    assert(range_free(win_ansi_pairs(), "one"@, 154, 162)) by {
        reveal_with_fuel(range_free, 10);
    }
    assert(range_free(win_ansi_pairs(), "one"@, 162, 170)) by {
        reveal_with_fuel(range_free, 10);
    }
    assert(range_free(win_ansi_pairs(), "one"@, 170, 178)) by {
        reveal_with_fuel(range_free, 10);
    }
    assert(range_free(win_ansi_pairs(), "one"@, 178, 186)) by {
        reveal_with_fuel(range_free, 10);
    }
    assert(range_free(win_ansi_pairs(), "one"@, 186, 194)) by {
        reveal_with_fuel(range_free, 10);
    }
    assert(range_free(win_ansi_pairs(), "one"@, 194, 202)) by {
        reveal_with_fuel(range_free, 10);
    }
    assert(range_free(win_ansi_pairs(), "one"@, 202, 210)) by {
        reveal_with_fuel(range_free, 10);
    }
    assert(range_free(win_ansi_pairs(), "one"@, 210, 218)) by {
        reveal_with_fuel(range_free, 10);
    }
    assert(range_free(win_ansi_pairs(), "one"@, 218, 223)) by {
        reveal_with_fuel(range_free, 10);
    }
    lemma_range_free_concat(win_ansi_pairs(), "one"@, 210, 218, 223);
    lemma_range_free_concat(win_ansi_pairs(), "one"@, 202, 210, 223);
    lemma_range_free_concat(win_ansi_pairs(), "one"@, 194, 202, 223);
    lemma_range_free_concat(win_ansi_pairs(), "one"@, 186, 194, 223);
    lemma_range_free_concat(win_ansi_pairs(), "one"@, 178, 186, 223);
    lemma_range_free_concat(win_ansi_pairs(), "one"@, 170, 178, 223);
    lemma_range_free_concat(win_ansi_pairs(), "one"@, 162, 170, 223);
    lemma_range_free_concat(win_ansi_pairs(), "one"@, 154, 162, 223);
    lemma_range_free_concat(win_ansi_pairs(), "one"@, 146, 154, 223);
    lemma_range_free_concat(win_ansi_pairs(), "one"@, 138, 146, 223);
    lemma_range_free_concat(win_ansi_pairs(), "one"@, 130, 138, 223);
    lemma_range_free_concat(win_ansi_pairs(), "one"@, 122, 130, 223);
    lemma_range_free_concat(win_ansi_pairs(), "one"@, 114, 122, 223);
    lemma_range_free_concat(win_ansi_pairs(), "one"@, 106, 114, 223);
    lemma_range_free_concat(win_ansi_pairs(), "one"@, 98, 106, 223);
    lemma_range_free_concat(win_ansi_pairs(), "one"@, 90, 98, 223);
    lemma_range_free_concat(win_ansi_pairs(), "one"@, 82, 90, 223);
    lemma_range_free_concat(win_ansi_pairs(), "one"@, 74, 82, 223);
    lemma_range_free_concat(win_ansi_pairs(), "one"@, 66, 74, 223);
    lemma_range_free_concat(win_ansi_pairs(), "one"@, 58, 66, 223);
    lemma_range_free_concat(win_ansi_pairs(), "one"@, 50, 58, 223);
    lemma_range_free_concat(win_ansi_pairs(), "one"@, 42, 50, 223);
    lemma_range_free_concat(win_ansi_pairs(), "one"@, 34, 42, 223);
    lemma_range_free_concat(win_ansi_pairs(), "one"@, 26, 34, 223);
    lemma_range_free_concat(win_ansi_pairs(), "one"@, 18, 26, 223);
    lemma_range_free_all(win_ansi_pairs(), "one"@, 18, 223);
    lemma_name_lookup_found(win_ansi_pairs(), "one"@, 17);
    assert(win_ansi_pairs()[0] == ("space"@, 32u8));
    assert(range_free(win_ansi_pairs(), "space"@, 1, 9)) by {
        reveal_with_fuel(range_free, 10);
    }
    assert(range_free(win_ansi_pairs(), "space"@, 9, 17)) by {
        reveal_with_fuel(range_free, 10);
    }
    assert(range_free(win_ansi_pairs(), "space"@, 17, 25)) by {
        reveal_with_fuel(range_free, 10);
    }
    assert(range_free(win_ansi_pairs(), "space"@, 25, 33)) by {
        reveal_with_fuel(range_free, 10);
    }
    assert(range_free(win_ansi_pairs(), "space"@, 33, 41)) by {
        reveal_with_fuel(range_free, 10);
    }
    assert(range_free(win_ansi_pairs(), "space"@, 41, 49)) by {
        reveal_with_fuel(range_free, 10);
    }
    assert(range_free(win_ansi_pairs(), "space"@, 49, 57)) by {
        reveal_with_fuel(range_free, 10);
    }
    assert(range_free(win_ansi_pairs(), "space"@, 57, 65)) by {
        reveal_with_fuel(range_free, 10);
    }
    assert(range_free(win_ansi_pairs(), "space"@, 65, 73)) by {
        reveal_with_fuel(range_free, 10);
    }
    assert(range_free(win_ansi_pairs(), "space"@, 73, 81)) by {
        reveal_with_fuel(range_free, 10);
    }
    assert(range_free(win_ansi_pairs(), "space"@, 81, 89)) by {
        reveal_with_fuel(range_free, 10);
    }
    assert(range_free(win_ansi_pairs(), "space"@, 89, 97)) by {
        reveal_with_fuel(range_free, 10);
    }
    assert(range_free(win_ansi_pairs(), "space"@, 97, 105)) by {
        reveal_with_fuel(range_free, 10);
    }
    assert(range_free(win_ansi_pairs(), "space"@, 105, 113)) by {
        reveal_with_fuel(range_free, 10);
    }
    assert(range_free(win_ansi_pairs(), "space"@, 113, 121)) by {
        reveal_with_fuel(range_free, 10);
    }
    assert(range_free(win_ansi_pairs(), "space"@, 121, 129)) by {
        reveal_with_fuel(range_free, 10);
    }
    assert(range_free(win_ansi_pairs(), "space"@, 129, 137)) by {
        reveal_with_fuel(range_free, 10);
    }
    assert(range_free(win_ansi_pairs(), "space"@, 137, 145)) by {
        reveal_with_fuel(range_free, 10);
    }
    assert(range_free(win_ansi_pairs(), "space"@, 145, 153)) by {
        reveal_with_fuel(range_free, 10);
    }
    assert(range_free(win_ansi_pairs(), "space"@, 153, 161)) by {
        reveal_with_fuel(range_free, 10);
    }
    assert(range_free(win_ansi_pairs(), "space"@, 161, 169)) by {
        reveal_with_fuel(range_free, 10);
    }
    assert(range_free(win_ansi_pairs(), "space"@, 169, 177)) by {
        reveal_with_fuel(range_free, 10);
    }
    assert(range_free(win_ansi_pairs(), "space"@, 177, 185)) by {
        reveal_with_fuel(range_free, 10);
    }
    assert(range_free(win_ansi_pairs(), "space"@, 185, 193)) by {
        reveal_with_fuel(range_free, 10);
    }
    assert(range_free(win_ansi_pairs(), "space"@, 193, 201)) by {
        reveal_with_fuel(range_free, 10);
    }
    assert(range_free(win_ansi_pairs(), "space"@, 201, 209)) by {
        reveal_with_fuel(range_free, 10);
    }
    assert(range_free(win_ansi_pairs(), "space"@, 209, 217)) by {
        reveal_with_fuel(range_free, 10);
    }
    assert(range_free(win_ansi_pairs(), "space"@, 217, 223)) by {
        reveal_with_fuel(range_free, 10);
    }
    lemma_range_free_concat(win_ansi_pairs(), "space"@, 209, 217, 223);
    lemma_range_free_concat(win_ansi_pairs(), "space"@, 201, 209, 223);
    lemma_range_free_concat(win_ansi_pairs(), "space"@, 193, 201, 223);
    lemma_range_free_concat(win_ansi_pairs(), "space"@, 185, 193, 223);
    lemma_range_free_concat(win_ansi_pairs(), "space"@, 177, 185, 223);
    lemma_range_free_concat(win_ansi_pairs(), "space"@, 169, 177, 223);
    lemma_range_free_concat(win_ansi_pairs(), "space"@, 161, 169, 223);
    lemma_range_free_concat(win_ansi_pairs(), "space"@, 153, 161, 223);
    lemma_range_free_concat(win_ansi_pairs(), "space"@, 145, 153, 223);
    lemma_range_free_concat(win_ansi_pairs(), "space"@, 137, 145, 223);
    lemma_range_free_concat(win_ansi_pairs(), "space"@, 129, 137, 223);
    lemma_range_free_concat(win_ansi_pairs(), "space"@, 121, 129, 223);
    lemma_range_free_concat(win_ansi_pairs(), "space"@, 113, 121, 223);
    lemma_range_free_concat(win_ansi_pairs(), "space"@, 105, 113, 223);
    lemma_range_free_concat(win_ansi_pairs(), "space"@, 97, 105, 223);
    lemma_range_free_concat(win_ansi_pairs(), "space"@, 89, 97, 223);
    lemma_range_free_concat(win_ansi_pairs(), "space"@, 81, 89, 223);
    lemma_range_free_concat(win_ansi_pairs(), "space"@, 73, 81, 223);
    lemma_range_free_concat(win_ansi_pairs(), "space"@, 65, 73, 223);
    lemma_range_free_concat(win_ansi_pairs(), "space"@, 57, 65, 223);
    lemma_range_free_concat(win_ansi_pairs(), "space"@, 49, 57, 223);
    lemma_range_free_concat(win_ansi_pairs(), "space"@, 41, 49, 223);
    lemma_range_free_concat(win_ansi_pairs(), "space"@, 33, 41, 223);
    lemma_range_free_concat(win_ansi_pairs(), "space"@, 25, 33, 223);
    lemma_range_free_concat(win_ansi_pairs(), "space"@, 17, 25, 223);
    lemma_range_free_concat(win_ansi_pairs(), "space"@, 9, 17, 223);
    lemma_range_free_concat(win_ansi_pairs(), "space"@, 1, 9, 223);
    lemma_range_free_all(win_ansi_pairs(), "space"@, 1, 223);
    lemma_name_lookup_found(win_ansi_pairs(), "space"@, 0);
    assert(win_ansi_pairs()[33] == ("A"@, 65u8));
    assert(range_free(win_ansi_pairs(), "A"@, 34, 42)) by {
        reveal_with_fuel(range_free, 10);
    }
    assert(range_free(win_ansi_pairs(), "A"@, 42, 50)) by {
        reveal_with_fuel(range_free, 10);
    }
    assert(range_free(win_ansi_pairs(), "A"@, 50, 58)) by {
        reveal_with_fuel(range_free, 10);
    }
    assert(range_free(win_ansi_pairs(), "A"@, 58, 66)) by {
        reveal_with_fuel(range_free, 10);
    }
    assert(range_free(win_ansi_pairs(), "A"@, 66, 74)) by {
        reveal_with_fuel(range_free, 10);
    }
    assert(range_free(win_ansi_pairs(), "A"@, 74, 82)) by {
        reveal_with_fuel(range_free, 10);
    }
    assert(range_free(win_ansi_pairs(), "A"@, 82, 90)) by {
        reveal_with_fuel(range_free, 10);
    }
    assert(range_free(win_ansi_pairs(), "A"@, 90, 98)) by {
        reveal_with_fuel(range_free, 10);
    }
    assert(range_free(win_ansi_pairs(), "A"@, 98, 106)) by {
        reveal_with_fuel(range_free, 10);
    }
    assert(range_free(win_ansi_pairs(), "A"@, 106, 114)) by {
        reveal_with_fuel(range_free, 10);
    }
    assert(range_free(win_ansi_pairs(), "A"@, 114, 122)) by {
        reveal_with_fuel(range_free, 10);
    }
    assert(range_free(win_ansi_pairs(), "A"@, 122, 130)) by {
        reveal_with_fuel(range_free, 10);
    }
    assert(range_free(win_ansi_pairs(), "A"@, 130, 138)) by {
        reveal_with_fuel(range_free, 10);
    }
    assert(range_free(win_ansi_pairs(), "A"@, 138, 146)) by {
        reveal_with_fuel(range_free, 10);
    }
    assert(range_free(win_ansi_pairs(), "A"@, 146, 154)) by {
        reveal_with_fuel(range_free, 10);
    }
    assert(range_free(win_ansi_pairs(), "A"@, 154, 162)) by {
        reveal_with_fuel(range_free, 10);
    }
    assert(range_free(win_ansi_pairs(), "A"@, 162, 170)) by {
        reveal_with_fuel(range_free, 10);
    }
    assert(range_free(win_ansi_pairs(), "A"@, 170, 178)) by {
        reveal_with_fuel(range_free, 10);
    }
    assert(range_free(win_ansi_pairs(), "A"@, 178, 186)) by {
        reveal_with_fuel(range_free, 10);
    }
    assert(range_free(win_ansi_pairs(), "A"@, 186, 194)) by {
        reveal_with_fuel(range_free, 10);
    }
    assert(range_free(win_ansi_pairs(), "A"@, 194, 202)) by {
        reveal_with_fuel(range_free, 10);
    }
    assert(range_free(win_ansi_pairs(), "A"@, 202, 210)) by {
        reveal_with_fuel(range_free, 10);
    }
    assert(range_free(win_ansi_pairs(), "A"@, 210, 218)) by {
        reveal_with_fuel(range_free, 10);
    }
    assert(range_free(win_ansi_pairs(), "A"@, 218, 223)) by {
        reveal_with_fuel(range_free, 10);
    }
    lemma_range_free_concat(win_ansi_pairs(), "A"@, 210, 218, 223);
    lemma_range_free_concat(win_ansi_pairs(), "A"@, 202, 210, 223);
    lemma_range_free_concat(win_ansi_pairs(), "A"@, 194, 202, 223);
    lemma_range_free_concat(win_ansi_pairs(), "A"@, 186, 194, 223);
    lemma_range_free_concat(win_ansi_pairs(), "A"@, 178, 186, 223);
    lemma_range_free_concat(win_ansi_pairs(), "A"@, 170, 178, 223);
    lemma_range_free_concat(win_ansi_pairs(), "A"@, 162, 170, 223);
    lemma_range_free_concat(win_ansi_pairs(), "A"@, 154, 162, 223);
    lemma_range_free_concat(win_ansi_pairs(), "A"@, 146, 154, 223);
    lemma_range_free_concat(win_ansi_pairs(), "A"@, 138, 146, 223);
    lemma_range_free_concat(win_ansi_pairs(), "A"@, 130, 138, 223);
    lemma_range_free_concat(win_ansi_pairs(), "A"@, 122, 130, 223);
    lemma_range_free_concat(win_ansi_pairs(), "A"@, 114, 122, 223);
    lemma_range_free_concat(win_ansi_pairs(), "A"@, 106, 114, 223);
    lemma_range_free_concat(win_ansi_pairs(), "A"@, 98, 106, 223);
    lemma_range_free_concat(win_ansi_pairs(), "A"@, 90, 98, 223);
    lemma_range_free_concat(win_ansi_pairs(), "A"@, 82, 90, 223);
    lemma_range_free_concat(win_ansi_pairs(), "A"@, 74, 82, 223);
    lemma_range_free_concat(win_ansi_pairs(), "A"@, 66, 74, 223);
    lemma_range_free_concat(win_ansi_pairs(), "A"@, 58, 66, 223);
    lemma_range_free_concat(win_ansi_pairs(), "A"@, 50, 58, 223);
    lemma_range_free_concat(win_ansi_pairs(), "A"@, 42, 50, 223);
    lemma_range_free_concat(win_ansi_pairs(), "A"@, 34, 42, 223);
    lemma_range_free_all(win_ansi_pairs(), "A"@, 34, 223);
    lemma_name_lookup_found(win_ansi_pairs(), "A"@, 33);
    assert(win_ansi_pairs()[90] == ("z"@, 122u8));
    assert(range_free(win_ansi_pairs(), "z"@, 91, 99)) by {
        reveal_with_fuel(range_free, 10);
    }
    assert(range_free(win_ansi_pairs(), "z"@, 99, 107)) by {
        reveal_with_fuel(range_free, 10);
    }
    assert(range_free(win_ansi_pairs(), "z"@, 107, 115)) by {
        reveal_with_fuel(range_free, 10);
    }
    assert(range_free(win_ansi_pairs(), "z"@, 115, 123)) by {
        reveal_with_fuel(range_free, 10);
    }
    assert(range_free(win_ansi_pairs(), "z"@, 123, 131)) by {
        reveal_with_fuel(range_free, 10);
    }
    assert(range_free(win_ansi_pairs(), "z"@, 131, 139)) by {
        reveal_with_fuel(range_free, 10);
    }
    assert(range_free(win_ansi_pairs(), "z"@, 139, 147)) by {
        reveal_with_fuel(range_free, 10);
    }
    assert(range_free(win_ansi_pairs(), "z"@, 147, 155)) by {
        reveal_with_fuel(range_free, 10);
    }
    assert(range_free(win_ansi_pairs(), "z"@, 155, 163)) by {
        reveal_with_fuel(range_free, 10);
    }
    assert(range_free(win_ansi_pairs(), "z"@, 163, 171)) by {
        reveal_with_fuel(range_free, 10);
    }
    assert(range_free(win_ansi_pairs(), "z"@, 171, 179)) by {
        reveal_with_fuel(range_free, 10);
    }
    assert(range_free(win_ansi_pairs(), "z"@, 179, 187)) by {
        reveal_with_fuel(range_free, 10);
    }
    assert(range_free(win_ansi_pairs(), "z"@, 187, 195)) by {
        reveal_with_fuel(range_free, 10);
    }
    assert(range_free(win_ansi_pairs(), "z"@, 195, 203)) by {
        reveal_with_fuel(range_free, 10);
    }
    assert(range_free(win_ansi_pairs(), "z"@, 203, 211)) by {
        reveal_with_fuel(range_free, 10);
    }
    assert(range_free(win_ansi_pairs(), "z"@, 211, 219)) by {
        reveal_with_fuel(range_free, 10);
    }
    assert(range_free(win_ansi_pairs(), "z"@, 219, 223)) by {
        reveal_with_fuel(range_free, 10);
    }
    lemma_range_free_concat(win_ansi_pairs(), "z"@, 211, 219, 223);
    lemma_range_free_concat(win_ansi_pairs(), "z"@, 203, 211, 223);
    lemma_range_free_concat(win_ansi_pairs(), "z"@, 195, 203, 223);
    lemma_range_free_concat(win_ansi_pairs(), "z"@, 187, 195, 223);
    lemma_range_free_concat(win_ansi_pairs(), "z"@, 179, 187, 223);
    lemma_range_free_concat(win_ansi_pairs(), "z"@, 171, 179, 223);
    lemma_range_free_concat(win_ansi_pairs(), "z"@, 163, 171, 223);
    lemma_range_free_concat(win_ansi_pairs(), "z"@, 155, 163, 223);
    lemma_range_free_concat(win_ansi_pairs(), "z"@, 147, 155, 223);
    lemma_range_free_concat(win_ansi_pairs(), "z"@, 139, 147, 223);
    lemma_range_free_concat(win_ansi_pairs(), "z"@, 131, 139, 223);
    lemma_range_free_concat(win_ansi_pairs(), "z"@, 123, 131, 223);
    lemma_range_free_concat(win_ansi_pairs(), "z"@, 115, 123, 223);
    lemma_range_free_concat(win_ansi_pairs(), "z"@, 107, 115, 223);
    lemma_range_free_concat(win_ansi_pairs(), "z"@, 99, 107, 223);
    lemma_range_free_concat(win_ansi_pairs(), "z"@, 91, 99, 223);
    lemma_range_free_all(win_ansi_pairs(), "z"@, 91, 223);
    lemma_name_lookup_found(win_ansi_pairs(), "z"@, 90);
}


} // verus!
