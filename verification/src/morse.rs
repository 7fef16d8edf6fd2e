//! The Morse alphabet: timing symbols, the classification of a run of
//! loud samples into a symbol, and the fixed table mapping a symbol
//! sequence to a character.

use vstd::prelude::*;

verus! {

/// One classified unit of Morse timing.
#[derive(Debug, Clone, Copy, PartialEq, Eq, Structural)]
pub enum Symbol {
    Short,
    Long,
    Space,
}

/// A run of loud samples too short to count as a dot: noise.
#[derive(Debug, PartialEq, Eq, Structural)]
pub struct SymbolError;

/// How a run of consecutive over-threshold samples is classified: a
/// dash above 1200 samples, a dot above 400, nothing (noise) below.
pub open spec fn classify_run(sample_count: nat) -> Option<Symbol> {
    if sample_count > 1200 {
        Some(Symbol::Long)
    } else if sample_count > 400 {
        Some(Symbol::Short)
    } else {
        None
    }
}

/// The same classification, with the too-short case as an error.
pub open spec fn spec_symbol_of_run(sample_count: u64) -> Result<Symbol, SymbolError> {
    match classify_run(sample_count as nat) {
        Some(s) => Ok(s),
        None => Err(SymbolError),
    }
}

impl Symbol {
    /// A dot is one unit, a dash three units; anything shorter than a
    /// dot is rejected as noise.
    pub fn try_from(sample_count: u64) -> (r: Result<Symbol, SymbolError>)
        ensures
            r == spec_symbol_of_run(sample_count),
    {
        if sample_count > 1200 {
            return Ok(Symbol::Long);
        }
        if sample_count > 400 {
            return Ok(Symbol::Short);
        }
        Err(SymbolError)
    }
}

impl Symbol {
    /// The symbol's written notation: dot, dash or word gap.
    pub fn notation(&self) -> (r: &'static str)
        ensures
            *self == Symbol::Short ==> r@ == "."@,
            *self == Symbol::Long ==> r@ == "-"@,
            *self == Symbol::Space ==> r@ == "/"@,
    {
        match self {
            Symbol::Long => "-",
            Symbol::Short => ".",
            Symbol::Space => "/",
        }
    }
}

/// The single-symbol column of the table.
pub open spec fn decode1(a: Symbol) -> Seq<char> {
    match a {
        Symbol::Short => seq!['e'],
        Symbol::Long => seq!['t'],
        Symbol::Space => seq![' '],
    }
}

/// The two-symbol column of the table.
pub open spec fn decode2(a: Symbol, b: Symbol) -> Seq<char> {
    match (a, b) {
        (Symbol::Short, Symbol::Long) => seq!['a'],
        (Symbol::Short, Symbol::Short) => seq!['i'],
        (Symbol::Long, Symbol::Long) => seq!['m'],
        (Symbol::Long, Symbol::Short) => seq!['n'],
        _ => seq!['?'],
    }
}

/// The three-symbol column of the table.
pub open spec fn decode3(a: Symbol, b: Symbol, c: Symbol) -> Seq<char> {
    match (a, b, c) {
        (Symbol::Long, Symbol::Short, Symbol::Short) => seq!['d'],
        (Symbol::Long, Symbol::Long, Symbol::Short) => seq!['g'],
        (Symbol::Long, Symbol::Short, Symbol::Long) => seq!['k'],
        (Symbol::Long, Symbol::Long, Symbol::Long) => seq!['o'],
        (Symbol::Short, Symbol::Long, Symbol::Short) => seq!['r'],
        (Symbol::Short, Symbol::Short, Symbol::Short) => seq!['s'],
        (Symbol::Short, Symbol::Short, Symbol::Long) => seq!['u'],
        (Symbol::Short, Symbol::Long, Symbol::Long) => seq!['w'],
        _ => seq!['?'],
    }
}

/// The four-symbol column of the table.
pub open spec fn decode4(a: Symbol, b: Symbol, c: Symbol, d: Symbol) -> Seq<char> {
    match (a, b, c, d) {
        (Symbol::Long, Symbol::Short, Symbol::Short, Symbol::Short) => seq!['b'],
        (Symbol::Long, Symbol::Short, Symbol::Long, Symbol::Short) => seq!['c'],
        (Symbol::Short, Symbol::Short, Symbol::Long, Symbol::Short) => seq!['f'],
        (Symbol::Short, Symbol::Short, Symbol::Short, Symbol::Short) => seq!['h'],
        (Symbol::Short, Symbol::Long, Symbol::Long, Symbol::Long) => seq!['j'],
        (Symbol::Short, Symbol::Long, Symbol::Short, Symbol::Short) => seq!['l'],
        (Symbol::Short, Symbol::Long, Symbol::Long, Symbol::Short) => seq!['p'],
        (Symbol::Long, Symbol::Long, Symbol::Short, Symbol::Long) => seq!['q'],
        (Symbol::Short, Symbol::Short, Symbol::Short, Symbol::Long) => seq!['v'],
        (Symbol::Long, Symbol::Short, Symbol::Short, Symbol::Long) => seq!['x'],
        (Symbol::Long, Symbol::Short, Symbol::Long, Symbol::Long) => seq!['y'],
        (Symbol::Long, Symbol::Long, Symbol::Short, Symbol::Short) => seq!['z'],
        _ => seq!['?'],
    }
}

/// The five-symbol column of the table: the digits.
pub open spec fn decode5(a: Symbol, b: Symbol, c: Symbol, d: Symbol, e: Symbol) -> Seq<char> {
    match (a, b, c, d, e) {
        (Symbol::Long, Symbol::Long, Symbol::Long, Symbol::Long, Symbol::Long) => seq!['0'],
        (Symbol::Short, Symbol::Long, Symbol::Long, Symbol::Long, Symbol::Long) => seq!['1'],
        (Symbol::Short, Symbol::Short, Symbol::Long, Symbol::Long, Symbol::Long) => seq!['2'],
        (Symbol::Short, Symbol::Short, Symbol::Short, Symbol::Long, Symbol::Long) => seq!['3'],
        (Symbol::Short, Symbol::Short, Symbol::Short, Symbol::Short, Symbol::Long) => seq!['4'],
        (Symbol::Short, Symbol::Short, Symbol::Short, Symbol::Short, Symbol::Short) => seq!['5'],
        (Symbol::Long, Symbol::Short, Symbol::Short, Symbol::Short, Symbol::Short) => seq!['6'],
        (Symbol::Long, Symbol::Long, Symbol::Short, Symbol::Short, Symbol::Short) => seq!['7'],
        (Symbol::Long, Symbol::Long, Symbol::Long, Symbol::Short, Symbol::Short) => seq!['8'],
        (Symbol::Long, Symbol::Long, Symbol::Long, Symbol::Long, Symbol::Short) => seq!['9'],
        _ => seq!['?'],
    }
}

/// The six-symbol column of the table: the two punctuation marks.
pub open spec fn decode6(a: Symbol, b: Symbol, c: Symbol, d: Symbol, e: Symbol, f: Symbol) -> Seq<
    char,
> {
    match (a, b, c, d, e, f) {
        (Symbol::Long, Symbol::Short, Symbol::Long, Symbol::Short, Symbol::Long, Symbol::Long) => seq![
            '!',
        ],
        (Symbol::Short, Symbol::Long, Symbol::Long, Symbol::Long, Symbol::Long, Symbol::Short) => seq![
            '\'',
        ],
        _ => seq!['?'],
    }
}

/// What a symbol sequence decodes to: the table entry where one
/// exists, the unknown marker `?` everywhere else.
pub open spec fn spec_decode(s: Seq<Symbol>) -> Seq<char> {
    if s.len() == 1 {
        decode1(s[0])
    } else if s.len() == 2 {
        decode2(s[0], s[1])
    } else if s.len() == 3 {
        decode3(s[0], s[1], s[2])
    } else if s.len() == 4 {
        decode4(s[0], s[1], s[2], s[3])
    } else if s.len() == 5 {
        decode5(s[0], s[1], s[2], s[3], s[4])
    } else if s.len() == 6 {
        decode6(s[0], s[1], s[2], s[3], s[4], s[5])
    } else {
        seq!['?']
    }
}

/// The symbol sequences that have an entry of their own in the table:
/// the letters a-z, the digits, the word gap, `!` and the apostrophe.
pub open spec fn in_table(s: Seq<Symbol>) -> bool {
    ||| s == seq![Symbol::Short]  // e
    ||| s == seq![Symbol::Long]  // t
    ||| s == seq![Symbol::Space]  // word gap
    ||| s == seq![Symbol::Short, Symbol::Long]  // a
    ||| s == seq![Symbol::Short, Symbol::Short]  // i
    ||| s == seq![Symbol::Long, Symbol::Long]  // m
    ||| s == seq![Symbol::Long, Symbol::Short]  // n
    ||| s == seq![Symbol::Long, Symbol::Short, Symbol::Short]  // d
    ||| s == seq![Symbol::Long, Symbol::Long, Symbol::Short]  // g
    ||| s == seq![Symbol::Long, Symbol::Short, Symbol::Long]  // k
    ||| s == seq![Symbol::Long, Symbol::Long, Symbol::Long]  // o
    ||| s == seq![Symbol::Short, Symbol::Long, Symbol::Short]  // r
    ||| s == seq![Symbol::Short, Symbol::Short, Symbol::Short]  // s
    ||| s == seq![Symbol::Short, Symbol::Short, Symbol::Long]  // u
    ||| s == seq![Symbol::Short, Symbol::Long, Symbol::Long]  // w
    ||| s == seq![Symbol::Long, Symbol::Short, Symbol::Short, Symbol::Short]  // b
    ||| s == seq![Symbol::Long, Symbol::Short, Symbol::Long, Symbol::Short]  // c
    ||| s == seq![Symbol::Short, Symbol::Short, Symbol::Long, Symbol::Short]  // f
    ||| s == seq![Symbol::Short, Symbol::Short, Symbol::Short, Symbol::Short]  // h
    ||| s == seq![Symbol::Short, Symbol::Long, Symbol::Long, Symbol::Long]  // j
    ||| s == seq![Symbol::Short, Symbol::Long, Symbol::Short, Symbol::Short]  // l
    ||| s == seq![Symbol::Short, Symbol::Long, Symbol::Long, Symbol::Short]  // p
    ||| s == seq![Symbol::Long, Symbol::Long, Symbol::Short, Symbol::Long]  // q
    ||| s == seq![Symbol::Short, Symbol::Short, Symbol::Short, Symbol::Long]  // v
    ||| s == seq![Symbol::Long, Symbol::Short, Symbol::Short, Symbol::Long]  // x
    ||| s == seq![Symbol::Long, Symbol::Short, Symbol::Long, Symbol::Long]  // y
    ||| s == seq![Symbol::Long, Symbol::Long, Symbol::Short, Symbol::Short]  // z
    ||| s == seq![Symbol::Long, Symbol::Long, Symbol::Long, Symbol::Long, Symbol::Long]  // 0
    ||| s == seq![Symbol::Short, Symbol::Long, Symbol::Long, Symbol::Long, Symbol::Long]  // 1
    ||| s == seq![Symbol::Short, Symbol::Short, Symbol::Long, Symbol::Long, Symbol::Long]  // 2
    ||| s == seq![Symbol::Short, Symbol::Short, Symbol::Short, Symbol::Long, Symbol::Long]  // 3
    ||| s == seq![Symbol::Short, Symbol::Short, Symbol::Short, Symbol::Short, Symbol::Long]  // 4
    ||| s == seq![Symbol::Short, Symbol::Short, Symbol::Short, Symbol::Short, Symbol::Short]  // 5
    ||| s == seq![Symbol::Long, Symbol::Short, Symbol::Short, Symbol::Short, Symbol::Short]  // 6
    ||| s == seq![Symbol::Long, Symbol::Long, Symbol::Short, Symbol::Short, Symbol::Short]  // 7
    ||| s == seq![Symbol::Long, Symbol::Long, Symbol::Long, Symbol::Short, Symbol::Short]  // 8
    ||| s == seq![Symbol::Long, Symbol::Long, Symbol::Long, Symbol::Long, Symbol::Short]  // 9
    ||| s == seq![
        Symbol::Long,
        Symbol::Short,
        Symbol::Long,
        Symbol::Short,
        Symbol::Long,
        Symbol::Long,
    ]  // !
    ||| s == seq![
        Symbol::Short,
        Symbol::Long,
        Symbol::Long,
        Symbol::Long,
        Symbol::Long,
        Symbol::Short,
    ]  // apostrophe
}

/// Every symbol sequence that has no entry of its own in the table
/// decodes to the unknown marker, never to anything else.
pub proof fn lemma_unknown_decodes_to_question_mark(s: Seq<Symbol>)
    requires
        !in_table(s),
    ensures
        spec_decode(s) == seq!['?'],
{
    if s.len() == 1 {
        assert(s =~= seq![s[0]]);
    } else if s.len() == 2 {
        assert(s =~= seq![s[0], s[1]]);
    } else if s.len() == 3 {
        assert(s =~= seq![s[0], s[1], s[2]]);
    } else if s.len() == 4 {
        assert(s =~= seq![s[0], s[1], s[2], s[3]]);
    } else if s.len() == 5 {
        assert(s =~= seq![s[0], s[1], s[2], s[3], s[4]]);
    } else if s.len() == 6 {
        assert(s =~= seq![s[0], s[1], s[2], s[3], s[4], s[5]]);
    }
}

/// Whatever sequence is looked up, the answer is a single character,
/// and it is the word gap exactly for the lone `Space` symbol.
pub proof fn lemma_decode_single_char(s: Seq<Symbol>)
    ensures
        spec_decode(s).len() == 1,
        (spec_decode(s)[0] == ' ') <==> (s == seq![Symbol::Space]),
{
    if s.len() == 1 {
        assert(s =~= seq![s[0]]);
    } else if s == seq![Symbol::Space] {
        assert(s.len() == 1);
    }
}

/// Exact-match lookup of a symbol sequence against the fixed table;
/// sequences without an entry come back as `"?"`. Never fails.
pub fn decode(morse: &[Symbol]) -> (r: &'static str)
    ensures
        r@ == spec_decode(morse@),
{
    proof {
        reveal_strlit("a");
        reveal_strlit("b");
        reveal_strlit("c");
        reveal_strlit("d");
        reveal_strlit("e");
        reveal_strlit("f");
        reveal_strlit("g");
        reveal_strlit("h");
        reveal_strlit("i");
        reveal_strlit("j");
        reveal_strlit("k");
        reveal_strlit("l");
        reveal_strlit("m");
        reveal_strlit("n");
        reveal_strlit("o");
        reveal_strlit("p");
        reveal_strlit("q");
        reveal_strlit("r");
        reveal_strlit("s");
        reveal_strlit("t");
        reveal_strlit("u");
        reveal_strlit("v");
        reveal_strlit("w");
        reveal_strlit("x");
        reveal_strlit("y");
        reveal_strlit("z");
        reveal_strlit("0");
        reveal_strlit("1");
        reveal_strlit("2");
        reveal_strlit("3");
        reveal_strlit("4");
        reveal_strlit("5");
        reveal_strlit("6");
        reveal_strlit("7");
        reveal_strlit("8");
        reveal_strlit("9");
        reveal_strlit("!");
        reveal_strlit("'");
        reveal_strlit("?");
        reveal_strlit(" ");
        assert("a"@ =~= seq!['a']);
        assert("b"@ =~= seq!['b']);
        assert("c"@ =~= seq!['c']);
        assert("d"@ =~= seq!['d']);
        assert("e"@ =~= seq!['e']);
        assert("f"@ =~= seq!['f']);
        assert("g"@ =~= seq!['g']);
        assert("h"@ =~= seq!['h']);
        assert("i"@ =~= seq!['i']);
        assert("j"@ =~= seq!['j']);
        assert("k"@ =~= seq!['k']);
        assert("l"@ =~= seq!['l']);
        assert("m"@ =~= seq!['m']);
        assert("n"@ =~= seq!['n']);
        assert("o"@ =~= seq!['o']);
        assert("p"@ =~= seq!['p']);
        assert("q"@ =~= seq!['q']);
        assert("r"@ =~= seq!['r']);
        assert("s"@ =~= seq!['s']);
        assert("t"@ =~= seq!['t']);
        assert("u"@ =~= seq!['u']);
        assert("v"@ =~= seq!['v']);
        assert("w"@ =~= seq!['w']);
        assert("x"@ =~= seq!['x']);
        assert("y"@ =~= seq!['y']);
        assert("z"@ =~= seq!['z']);
        assert("0"@ =~= seq!['0']);
        assert("1"@ =~= seq!['1']);
        assert("2"@ =~= seq!['2']);
        assert("3"@ =~= seq!['3']);
        assert("4"@ =~= seq!['4']);
        assert("5"@ =~= seq!['5']);
        assert("6"@ =~= seq!['6']);
        assert("7"@ =~= seq!['7']);
        assert("8"@ =~= seq!['8']);
        assert("9"@ =~= seq!['9']);
        assert("!"@ =~= seq!['!']);
        assert("'"@ =~= seq!['\'']);
        assert("?"@ =~= seq!['?']);
        assert(" "@ =~= seq![' ']);
    }
    if morse.len() == 1 {
        match morse[0] {
            Symbol::Short => "e",
            Symbol::Long => "t",
            Symbol::Space => " ",
        }
    } else if morse.len() == 2 {
        match (morse[0], morse[1]) {
            (Symbol::Short, Symbol::Long) => "a",
            (Symbol::Short, Symbol::Short) => "i",
            (Symbol::Long, Symbol::Long) => "m",
            (Symbol::Long, Symbol::Short) => "n",
            _ => "?",
        }
    } else if morse.len() == 3 {
        match (morse[0], morse[1], morse[2]) {
            (Symbol::Long, Symbol::Short, Symbol::Short) => "d",
            (Symbol::Long, Symbol::Long, Symbol::Short) => "g",
            (Symbol::Long, Symbol::Short, Symbol::Long) => "k",
            (Symbol::Long, Symbol::Long, Symbol::Long) => "o",
            (Symbol::Short, Symbol::Long, Symbol::Short) => "r",
            (Symbol::Short, Symbol::Short, Symbol::Short) => "s",
            (Symbol::Short, Symbol::Short, Symbol::Long) => "u",
            (Symbol::Short, Symbol::Long, Symbol::Long) => "w",
            _ => "?",
        }
    } else if morse.len() == 4 {
        match (morse[0], morse[1], morse[2], morse[3]) {
            (Symbol::Long, Symbol::Short, Symbol::Short, Symbol::Short) => "b",
            (Symbol::Long, Symbol::Short, Symbol::Long, Symbol::Short) => "c",
            (Symbol::Short, Symbol::Short, Symbol::Long, Symbol::Short) => "f",
            (Symbol::Short, Symbol::Short, Symbol::Short, Symbol::Short) => "h",
            (Symbol::Short, Symbol::Long, Symbol::Long, Symbol::Long) => "j",
            (Symbol::Short, Symbol::Long, Symbol::Short, Symbol::Short) => "l",
            (Symbol::Short, Symbol::Long, Symbol::Long, Symbol::Short) => "p",
            (Symbol::Long, Symbol::Long, Symbol::Short, Symbol::Long) => "q",
            (Symbol::Short, Symbol::Short, Symbol::Short, Symbol::Long) => "v",
            (Symbol::Long, Symbol::Short, Symbol::Short, Symbol::Long) => "x",
            (Symbol::Long, Symbol::Short, Symbol::Long, Symbol::Long) => "y",
            (Symbol::Long, Symbol::Long, Symbol::Short, Symbol::Short) => "z",
            _ => "?",
        }
    } else if morse.len() == 5 {
        match (morse[0], morse[1], morse[2], morse[3], morse[4]) {
            (Symbol::Long, Symbol::Long, Symbol::Long, Symbol::Long, Symbol::Long) => "0",
            (Symbol::Short, Symbol::Long, Symbol::Long, Symbol::Long, Symbol::Long) => "1",
            (Symbol::Short, Symbol::Short, Symbol::Long, Symbol::Long, Symbol::Long) => "2",
            (Symbol::Short, Symbol::Short, Symbol::Short, Symbol::Long, Symbol::Long) => "3",
            (Symbol::Short, Symbol::Short, Symbol::Short, Symbol::Short, Symbol::Long) => "4",
            (Symbol::Short, Symbol::Short, Symbol::Short, Symbol::Short, Symbol::Short) => "5",
            (Symbol::Long, Symbol::Short, Symbol::Short, Symbol::Short, Symbol::Short) => "6",
            (Symbol::Long, Symbol::Long, Symbol::Short, Symbol::Short, Symbol::Short) => "7",
            (Symbol::Long, Symbol::Long, Symbol::Long, Symbol::Short, Symbol::Short) => "8",
            (Symbol::Long, Symbol::Long, Symbol::Long, Symbol::Long, Symbol::Short) => "9",
            _ => "?",
        }
    } else if morse.len() == 6 {
        match (morse[0], morse[1], morse[2], morse[3], morse[4], morse[5]) {
            (
                Symbol::Long,
                Symbol::Short,
                Symbol::Long,
                Symbol::Short,
                Symbol::Long,
                Symbol::Long,
            ) => "!",
            (
                Symbol::Short,
                Symbol::Long,
                Symbol::Long,
                Symbol::Long,
                Symbol::Long,
                Symbol::Short,
            ) => "'",
            _ => "?",
        }
    } else {
        "?"
    }
}

} // verus!
