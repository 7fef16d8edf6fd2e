//! The Morse text codec: encoding human text into dot-dash notation
//! and decoding dot-dash notation back into text, together with the
//! argument handling of the command around it.

use vstd::prelude::*;
use vstd::string::{StrSliceExecFns, StringExecFns};

use crate::strutil::str_eq;

verus! {

/// Which way the codec is asked to run.
#[derive(Debug, PartialEq, Eq, Structural)]
pub enum Direction {
    To,
    From,
}

impl Direction {
    /// `"to"` encodes, `"from"` decodes, anything else is rejected.
    pub fn from_str(s: &str) -> (r: Result<Direction, &'static str>)
        ensures
            s@ == "to"@ ==> r == Ok::<Direction, &'static str>(Direction::To),
            s@ == "from"@ ==> r == Ok::<Direction, &'static str>(Direction::From),
            (s@ != "to"@ && s@ != "from"@) ==> (r matches Err(m) && m@
                == "Direction arg must be 'to' or 'from'"@),
    {
        proof {
            reveal_strlit("to");
            reveal_strlit("from");
            assert("to"@.len() == 2);
            assert("from"@.len() == 4);
        }
        if str_eq(s, "to") {
            Ok(Direction::To)
        } else if str_eq(s, "from") {
            Ok(Direction::From)
        } else {
            Err("Direction arg must be 'to' or 'from'")
        }
    }
}

/// An ASCII whitespace character, as the codec understands them.
pub open spec fn is_sep(c: char) -> bool {
    c == ' ' || c == '\t' || c == '\n' || c == '\x0C' || c == '\r'
}

/// The characters the encoder accepts: ASCII letters of either case,
/// ASCII digits, and ASCII whitespace.
pub open spec fn encodable(c: char) -> bool {
    (97 <= c as u32 <= 122) || (65 <= c as u32 <= 90) || (48 <= c as u32 <= 57) || is_sep(c)
}

/// The dot-dash code of one encodable character; whitespace becomes
/// the word separator `/`.
pub open spec fn char_code(c: char) -> Seq<char> {
    if c == 'a' || c == 'A' {
        seq!['.', '-']
    } else if c == 'b' || c == 'B' {
        seq!['-', '.', '.', '.']
    } else if c == 'c' || c == 'C' {
        seq!['-', '.', '-', '.']
    } else if c == 'd' || c == 'D' {
        seq!['-', '.', '.']
    } else if c == 'e' || c == 'E' {
        seq!['.']
    } else if c == 'f' || c == 'F' {
        seq!['.', '.', '-', '.']
    } else if c == 'g' || c == 'G' {
        seq!['-', '-', '.']
    } else if c == 'h' || c == 'H' {
        seq!['.', '.', '.', '.']
    } else if c == 'i' || c == 'I' {
        seq!['.', '.']
    } else if c == 'j' || c == 'J' {
        seq!['.', '-', '-', '-']
    } else if c == 'k' || c == 'K' {
        seq!['-', '.', '-']
    } else if c == 'l' || c == 'L' {
        seq!['.', '-', '.', '.']
    } else if c == 'm' || c == 'M' {
        seq!['-', '-']
    } else if c == 'n' || c == 'N' {
        seq!['-', '.']
    } else if c == 'o' || c == 'O' {
        seq!['-', '-', '-']
    } else if c == 'p' || c == 'P' {
        seq!['.', '-', '-', '.']
    } else if c == 'q' || c == 'Q' {
        seq!['-', '-', '.', '-']
    } else if c == 'r' || c == 'R' {
        seq!['.', '-', '.']
    } else if c == 's' || c == 'S' {
        seq!['.', '.', '.']
    } else if c == 't' || c == 'T' {
        seq!['-']
    } else if c == 'u' || c == 'U' {
        seq!['.', '.', '-']
    } else if c == 'v' || c == 'V' {
        seq!['.', '.', '.', '-']
    } else if c == 'w' || c == 'W' {
        seq!['.', '-', '-']
    } else if c == 'x' || c == 'X' {
        seq!['-', '.', '.', '-']
    } else if c == 'y' || c == 'Y' {
        seq!['-', '.', '-', '-']
    } else if c == 'z' || c == 'Z' {
        seq!['-', '-', '.', '.']
    } else if c == '0' {
        seq!['-', '-', '-', '-', '-']
    } else if c == '1' {
        seq!['.', '-', '-', '-', '-']
    } else if c == '2' {
        seq!['.', '.', '-', '-', '-']
    } else if c == '3' {
        seq!['.', '.', '.', '-', '-']
    } else if c == '4' {
        seq!['.', '.', '.', '.', '-']
    } else if c == '5' {
        seq!['.', '.', '.', '.', '.']
    } else if c == '6' {
        seq!['-', '.', '.', '.', '.']
    } else if c == '7' {
        seq!['-', '-', '.', '.', '.']
    } else if c == '8' {
        seq!['-', '-', '-', '.', '.']
    } else if c == '9' {
        seq!['-', '-', '-', '-', '.']
    } else {
        seq!['/']
    }
}

/// A failed lookup propagated through an optional tail.
pub open spec fn with_prefix(prefix: Seq<char>, o: Option<Seq<char>>) -> Option<Seq<char>> {
    match o {
        None => None,
        Some(rest) => Some(prefix + rest),
    }
}

proof fn lemma_with_prefix_assoc(a: Seq<char>, b: Seq<char>, o: Option<Seq<char>>)
    ensures
        with_prefix(a, with_prefix(b, o)) == with_prefix(a + b, o),
{
    match o {
        None => {},
        Some(rest) => {
            assert(a + (b + rest) =~= (a + b) + rest);
        },
    }
}

/// What encoding a text yields: the codes of its characters joined by
/// single blanks, or nothing at all if any character has no code.
pub open spec fn spec_encode(s: Seq<char>) -> Option<Seq<char>>
    decreases s.len(),
{
    if s.len() == 0 {
        Some(seq![])
    } else if !encodable(s[0]) {
        None
    } else if s.len() == 1 {
        Some(char_code(s[0]))
    } else {
        with_prefix(char_code(s[0]) + seq![' '], spec_encode(s.skip(1)))
    }
}

/// The code of one character, or `None` for one the table does not
/// carry.
fn char_to_code(c: char) -> (r: Option<&'static str>)
    ensures
        encodable(c) ==> (r matches Some(t) && t@ == char_code(c)),
        !encodable(c) ==> r is None,
{
    proof {
        reveal_strlit(".-");
        reveal_strlit("-...");
        reveal_strlit("-.-.");
        reveal_strlit("-..");
        reveal_strlit(".");
        reveal_strlit("..-.");
        reveal_strlit("--.");
        reveal_strlit("....");
        reveal_strlit("..");
        reveal_strlit(".---");
        reveal_strlit("-.-");
        reveal_strlit(".-..");
        reveal_strlit("--");
        reveal_strlit("-.");
        reveal_strlit("---");
        reveal_strlit(".--.");
        reveal_strlit("--.-");
        reveal_strlit(".-.");
        reveal_strlit("...");
        reveal_strlit("-");
        reveal_strlit("..-");
        reveal_strlit("...-");
        reveal_strlit(".--");
        reveal_strlit("-..-");
        reveal_strlit("-.--");
        reveal_strlit("--..");
        reveal_strlit("-----");
        reveal_strlit(".----");
        reveal_strlit("..---");
        reveal_strlit("...--");
        reveal_strlit("....-");
        reveal_strlit(".....");
        reveal_strlit("-....");
        reveal_strlit("--...");
        reveal_strlit("---..");
        reveal_strlit("----.");
        reveal_strlit("/");
        assert(".-"@ =~= seq!['.', '-']);
        assert("-..."@ =~= seq!['-', '.', '.', '.']);
        assert("-.-."@ =~= seq!['-', '.', '-', '.']);
        assert("-.."@ =~= seq!['-', '.', '.']);
        assert("."@ =~= seq!['.']);
        assert("..-."@ =~= seq!['.', '.', '-', '.']);
        assert("--."@ =~= seq!['-', '-', '.']);
        assert("...."@ =~= seq!['.', '.', '.', '.']);
        assert(".."@ =~= seq!['.', '.']);
        assert(".---"@ =~= seq!['.', '-', '-', '-']);
        assert("-.-"@ =~= seq!['-', '.', '-']);
        assert(".-.."@ =~= seq!['.', '-', '.', '.']);
        assert("--"@ =~= seq!['-', '-']);
        assert("-."@ =~= seq!['-', '.']);
        assert("---"@ =~= seq!['-', '-', '-']);
        assert(".--."@ =~= seq!['.', '-', '-', '.']);
        assert("--.-"@ =~= seq!['-', '-', '.', '-']);
        assert(".-."@ =~= seq!['.', '-', '.']);
        assert("..."@ =~= seq!['.', '.', '.']);
        assert("-"@ =~= seq!['-']);
        assert("..-"@ =~= seq!['.', '.', '-']);
        assert("...-"@ =~= seq!['.', '.', '.', '-']);
        assert(".--"@ =~= seq!['.', '-', '-']);
        assert("-..-"@ =~= seq!['-', '.', '.', '-']);
        assert("-.--"@ =~= seq!['-', '.', '-', '-']);
        assert("--.."@ =~= seq!['-', '-', '.', '.']);
        assert("-----"@ =~= seq!['-', '-', '-', '-', '-']);
        assert(".----"@ =~= seq!['.', '-', '-', '-', '-']);
        assert("..---"@ =~= seq!['.', '.', '-', '-', '-']);
        assert("...--"@ =~= seq!['.', '.', '.', '-', '-']);
        assert("....-"@ =~= seq!['.', '.', '.', '.', '-']);
        assert("....."@ =~= seq!['.', '.', '.', '.', '.']);
        assert("-...."@ =~= seq!['-', '.', '.', '.', '.']);
        assert("--..."@ =~= seq!['-', '-', '.', '.', '.']);
        assert("---.."@ =~= seq!['-', '-', '-', '.', '.']);
        assert("----."@ =~= seq!['-', '-', '-', '-', '.']);
        assert("/"@ =~= seq!['/']);
    }
    match c {
        'a' | 'A' => Some(".-"),
        'b' | 'B' => Some("-..."),
        'c' | 'C' => Some("-.-."),
        'd' | 'D' => Some("-.."),
        'e' | 'E' => Some("."),
        'f' | 'F' => Some("..-."),
        'g' | 'G' => Some("--."),
        'h' | 'H' => Some("...."),
        'i' | 'I' => Some(".."),
        'j' | 'J' => Some(".---"),
        'k' | 'K' => Some("-.-"),
        'l' | 'L' => Some(".-.."),
        'm' | 'M' => Some("--"),
        'n' | 'N' => Some("-."),
        'o' | 'O' => Some("---"),
        'p' | 'P' => Some(".--."),
        'q' | 'Q' => Some("--.-"),
        'r' | 'R' => Some(".-."),
        's' | 'S' => Some("..."),
        't' | 'T' => Some("-"),
        'u' | 'U' => Some("..-"),
        'v' | 'V' => Some("...-"),
        'w' | 'W' => Some(".--"),
        'x' | 'X' => Some("-..-"),
        'y' | 'Y' => Some("-.--"),
        'z' | 'Z' => Some("--.."),
        '0' => Some("-----"),
        '1' => Some(".----"),
        '2' => Some("..---"),
        '3' => Some("...--"),
        '4' => Some("....-"),
        '5' => Some("....."),
        '6' => Some("-...."),
        '7' => Some("--..."),
        '8' => Some("---.."),
        '9' => Some("----."),
        ' ' | '\t' | '\n' | '\x0C' | '\r' => Some("/"),
        _ => None,
    }
}

/// Encodes the tail of `msg` that starts at character `i`.
fn encode_from(msg: &str, i: usize, n: usize) -> (r: Option<String>)
    requires
        n == msg@.len(),
        i <= n,
    ensures
        r is Some <==> spec_encode(msg@.skip(i as int)) is Some,
        r matches Some(s) ==> spec_encode(msg@.skip(i as int)) == Some(s@),
    decreases n - i,
{
    proof {
        reveal_strlit(" ");
        assert(" "@ =~= seq![' ']);
    }
    if i == n {
        proof {
            assert(msg@.skip(i as int) =~= Seq::<char>::empty());
        }
        return Some(String::new());
    }
    let c = msg.get_char(i);
    let code = match char_to_code(c) {
        Some(t) => t,
        None => { return None; },
    };
    proof {
        assert(msg@.skip(i as int)[0] == msg@[i as int]);
    }
    if i + 1 == n {
        let s = String::from_str(code);
        proof {
            assert(msg@.skip(i as int).len() == 1);
        }
        return Some(s);
    }
    let rest = match encode_from(msg, i + 1, n) {
        Some(t) => t,
        None => {
            proof {
                assert(msg@.skip(i as int).skip(1) =~= msg@.skip(i as int + 1));
            }
            return None;
        },
    };
    let mut s = String::from_str(code);
    s.append(" ");
    s.append(rest.as_str());
    proof {
        assert(msg@.skip(i as int).skip(1) =~= msg@.skip(i as int + 1));
        assert(s@ =~= (char_code(msg@[i as int]) + seq![' ']) + rest@);
    }
    Some(s)
}

/// Encodes a message into dot-dash notation: each letter or digit
/// becomes its code, whitespace becomes `/`, and codes are joined by
/// single blanks. A message holding any other character cannot be
/// encoded.
pub fn encode(msg: &str) -> (r: Option<String>)
    ensures
        r is Some <==> spec_encode(msg@) is Some,
        r matches Some(s) ==> spec_encode(msg@) == Some(s@),
{
    let n = msg.unicode_len();
    let r = encode_from(msg, 0, n);
    proof {
        assert(msg@.skip(0) =~= msg@);
    }
    r
}

/// The character a dot-dash token stands for, if the table carries
/// the token.
pub open spec fn token_char(t: Seq<char>) -> Option<char> {
    if t == seq!['.', '-'] {
        Some('a')
    } else if t == seq!['-', '.', '.', '.'] {
        Some('b')
    } else if t == seq!['-', '.', '-', '.'] {
        Some('c')
    } else if t == seq!['-', '.', '.'] {
        Some('d')
    } else if t == seq!['.'] {
        Some('e')
    } else if t == seq!['.', '.', '-', '.'] {
        Some('f')
    } else if t == seq!['-', '-', '.'] {
        Some('g')
    } else if t == seq!['.', '.', '.', '.'] {
        Some('h')
    } else if t == seq!['.', '.'] {
        Some('i')
    } else if t == seq!['.', '-', '-', '-'] {
        Some('j')
    } else if t == seq!['-', '.', '-'] {
        Some('k')
    } else if t == seq!['.', '-', '.', '.'] {
        Some('l')
    } else if t == seq!['-', '-'] {
        Some('m')
    } else if t == seq!['-', '.'] {
        Some('n')
    } else if t == seq!['-', '-', '-'] {
        Some('o')
    } else if t == seq!['.', '-', '-', '.'] {
        Some('p')
    } else if t == seq!['-', '-', '.', '-'] {
        Some('q')
    } else if t == seq!['.', '-', '.'] {
        Some('r')
    } else if t == seq!['.', '.', '.'] {
        Some('s')
    } else if t == seq!['-'] {
        Some('t')
    } else if t == seq!['.', '.', '-'] {
        Some('u')
    } else if t == seq!['.', '.', '.', '-'] {
        Some('v')
    } else if t == seq!['.', '-', '-'] {
        Some('w')
    } else if t == seq!['-', '.', '.', '-'] {
        Some('x')
    } else if t == seq!['-', '.', '-', '-'] {
        Some('y')
    } else if t == seq!['-', '-', '.', '.'] {
        Some('z')
    } else if t == seq!['/'] {
        Some(' ')
    } else if t == seq!['-', '-', '-', '-', '-'] {
        Some('0')
    } else if t == seq!['.', '-', '-', '-', '-'] {
        Some('1')
    } else if t == seq!['.', '.', '-', '-', '-'] {
        Some('2')
    } else if t == seq!['.', '.', '.', '-', '-'] {
        Some('3')
    } else if t == seq!['.', '.', '.', '.', '-'] {
        Some('4')
    } else if t == seq!['.', '.', '.', '.', '.'] {
        Some('5')
    } else if t == seq!['-', '.', '.', '.', '.'] {
        Some('6')
    } else if t == seq!['-', '-', '.', '.', '.'] {
        Some('7')
    } else if t == seq!['-', '-', '-', '.', '.'] {
        Some('8')
    } else if t == seq!['-', '-', '-', '-', '.'] {
        Some('9')
    } else {
        None
    }
}

/// What decoding yields, walking the notation with the token read so
/// far: whitespace closes the token and looks it up, anything else
/// extends it; one unknown token spoils the whole decode.
pub open spec fn spec_decode_loop(s: Seq<char>, tok: Seq<char>) -> Option<Seq<char>>
    decreases s.len(),
{
    if s.len() == 0 {
        if tok.len() == 0 {
            Some(seq![])
        } else {
            match token_char(tok) {
                None => None,
                Some(c) => Some(seq![c]),
            }
        }
    } else if is_sep(s[0]) {
        if tok.len() == 0 {
            spec_decode_loop(s.skip(1), seq![])
        } else {
            match token_char(tok) {
                None => None,
                Some(c) => with_prefix(seq![c], spec_decode_loop(s.skip(1), seq![])),
            }
        }
    } else {
        spec_decode_loop(s.skip(1), tok.push(s[0]))
    }
}

/// What decoding a whole notation yields.
pub open spec fn spec_decode(s: Seq<char>) -> Option<Seq<char>> {
    spec_decode_loop(s, seq![])
}

/// Looks one token up, handing back the character as a one-character
/// string.
fn token_lookup(tok: &Vec<char>) -> (r: Option<&'static str>)
    ensures
        r is Some <==> token_char(tok@) is Some,
        r matches Some(s) ==> (token_char(tok@) matches Some(c) && s@ == seq![c]),
{
    proof {
        reveal_strlit("a");
        reveal_strlit("b");
        reveal_strlit("c");
        reveal_strlit("d");
        reveal_strlit("e");
        reveal_strlit("f");
        reveal_strlit("g");
        reveal_strlit("h");
        reveal_strlit("i");
        reveal_strlit("j");
        reveal_strlit("k");
        reveal_strlit("l");
        reveal_strlit("m");
        reveal_strlit("n");
        reveal_strlit("o");
        reveal_strlit("p");
        reveal_strlit("q");
        reveal_strlit("r");
        reveal_strlit("s");
        reveal_strlit("t");
        reveal_strlit("u");
        reveal_strlit("v");
        reveal_strlit("w");
        reveal_strlit("x");
        reveal_strlit("y");
        reveal_strlit("z");
        reveal_strlit("0");
        reveal_strlit("1");
        reveal_strlit("2");
        reveal_strlit("3");
        reveal_strlit("4");
        reveal_strlit("5");
        reveal_strlit("6");
        reveal_strlit("7");
        reveal_strlit("8");
        reveal_strlit("9");
        reveal_strlit(" ");
        assert("a"@ =~= seq!['a']);
        assert("b"@ =~= seq!['b']);
        assert("c"@ =~= seq!['c']);
        assert("d"@ =~= seq!['d']);
        assert("e"@ =~= seq!['e']);
        assert("f"@ =~= seq!['f']);
        assert("g"@ =~= seq!['g']);
        assert("h"@ =~= seq!['h']);
        assert("i"@ =~= seq!['i']);
        assert("j"@ =~= seq!['j']);
        assert("k"@ =~= seq!['k']);
        assert("l"@ =~= seq!['l']);
        assert("m"@ =~= seq!['m']);
        assert("n"@ =~= seq!['n']);
        assert("o"@ =~= seq!['o']);
        assert("p"@ =~= seq!['p']);
        assert("q"@ =~= seq!['q']);
        assert("r"@ =~= seq!['r']);
        assert("s"@ =~= seq!['s']);
        assert("t"@ =~= seq!['t']);
        assert("u"@ =~= seq!['u']);
        assert("v"@ =~= seq!['v']);
        assert("w"@ =~= seq!['w']);
        assert("x"@ =~= seq!['x']);
        assert("y"@ =~= seq!['y']);
        assert("z"@ =~= seq!['z']);
        assert("0"@ =~= seq!['0']);
        assert("1"@ =~= seq!['1']);
        assert("2"@ =~= seq!['2']);
        assert("3"@ =~= seq!['3']);
        assert("4"@ =~= seq!['4']);
        assert("5"@ =~= seq!['5']);
        assert("6"@ =~= seq!['6']);
        assert("7"@ =~= seq!['7']);
        assert("8"@ =~= seq!['8']);
        assert("9"@ =~= seq!['9']);
        assert(" "@ =~= seq![' ']);
    }
    if tok.len() == 1 {
        proof {
            assert(tok@ =~= seq![tok@[0]]);
        }
        match tok[0] {
            '.' => Some("e"),
            '-' => Some("t"),
            '/' => Some(" "),
            _ => None,
        }
    } else if tok.len() == 2 {
        proof {
            assert(tok@ =~= seq![tok@[0], tok@[1]]);
        }
        match (tok[0], tok[1]) {
            ('.', '-') => Some("a"),
            ('.', '.') => Some("i"),
            ('-', '-') => Some("m"),
            ('-', '.') => Some("n"),
            _ => None,
        }
    } else if tok.len() == 3 {
        proof {
            assert(tok@ =~= seq![tok@[0], tok@[1], tok@[2]]);
        }
        match (tok[0], tok[1], tok[2]) {
            ('-', '.', '.') => Some("d"),
            ('-', '-', '.') => Some("g"),
            ('-', '.', '-') => Some("k"),
            ('-', '-', '-') => Some("o"),
            ('.', '-', '.') => Some("r"),
            ('.', '.', '.') => Some("s"),
            ('.', '.', '-') => Some("u"),
            ('.', '-', '-') => Some("w"),
            _ => None,
        }
    } else if tok.len() == 4 {
        proof {
            assert(tok@ =~= seq![tok@[0], tok@[1], tok@[2], tok@[3]]);
        }
        match (tok[0], tok[1], tok[2], tok[3]) {
            ('-', '.', '.', '.') => Some("b"),
            ('-', '.', '-', '.') => Some("c"),
            ('.', '.', '-', '.') => Some("f"),
            ('.', '.', '.', '.') => Some("h"),
            ('.', '-', '-', '-') => Some("j"),
            ('.', '-', '.', '.') => Some("l"),
            ('.', '-', '-', '.') => Some("p"),
            ('-', '-', '.', '-') => Some("q"),
            ('.', '.', '.', '-') => Some("v"),
            ('-', '.', '.', '-') => Some("x"),
            ('-', '.', '-', '-') => Some("y"),
            ('-', '-', '.', '.') => Some("z"),
            _ => None,
        }
    } else if tok.len() == 5 {
        proof {
            assert(tok@ =~= seq![tok@[0], tok@[1], tok@[2], tok@[3], tok@[4]]);
        }
        match (tok[0], tok[1], tok[2], tok[3], tok[4]) {
            ('-', '-', '-', '-', '-') => Some("0"),
            ('.', '-', '-', '-', '-') => Some("1"),
            ('.', '.', '-', '-', '-') => Some("2"),
            ('.', '.', '.', '-', '-') => Some("3"),
            ('.', '.', '.', '.', '-') => Some("4"),
            ('.', '.', '.', '.', '.') => Some("5"),
            ('-', '.', '.', '.', '.') => Some("6"),
            ('-', '-', '.', '.', '.') => Some("7"),
            ('-', '-', '-', '.', '.') => Some("8"),
            ('-', '-', '-', '-', '.') => Some("9"),
            _ => None,
        }
    } else {
        proof {
            if tok@.len() == 0 {
                assert(tok@ =~= Seq::<char>::empty());
            }
        }
        None
    }
}

/// Decodes dot-dash notation back into text: tokens separated by
/// whitespace are looked up one by one, and a single unknown token
/// spoils the whole decode.
pub fn decode(morse: &str) -> (r: Option<String>)
    ensures
        r is Some <==> spec_decode(morse@) is Some,
        r matches Some(s) ==> spec_decode(morse@) == Some(s@),
{
    let n = morse.unicode_len();
    let mut out: String = String::new();
    let mut tok: Vec<char> = Vec::new();
    let mut i: usize = 0;
    proof {
        assert(morse@.skip(0) =~= morse@);
    }
    while i < n
        invariant
            i <= n,
            n == morse@.len(),
            spec_decode(morse@) == with_prefix(
                out@,
                spec_decode_loop(morse@.skip(i as int), tok@),
            ),
        decreases n - i,
    {
        let ghost rem = morse@.skip(i as int);
        let ghost rem1 = morse@.skip(i as int + 1);
        let ghost tok0 = tok@;
        let ghost out0 = out@;
        proof {
            assert(rem[0] == morse@[i as int]);
            assert(rem.skip(1) =~= rem1);
        }
        let c = morse.get_char(i);
        if c == ' ' || c == '\t' || c == '\n' || c == '\x0C' || c == '\r' {
            if tok.len() > 0 {
                match token_lookup(&tok) {
                    None => {
                        proof {
                            assert(spec_decode_loop(rem, tok0) is None);
                        }
                        return None;
                    },
                    Some(piece) => {
                        out.append(piece);
                        tok.clear();
                        proof {
                            let cr = token_char(tok0);
                            match cr {
                                Some(cc) => {
                                    assert(piece@ == seq![cc]);
                                    assert(spec_decode_loop(rem, tok0) == with_prefix(
                                        piece@,
                                        spec_decode_loop(rem1, seq![]),
                                    ));
                                    lemma_with_prefix_assoc(
                                        out0,
                                        piece@,
                                        spec_decode_loop(rem1, seq![]),
                                    );
                                    assert(tok@ =~= Seq::<char>::empty());
                                },
                                None => {
                                    assert(false);
                                },
                            }
                        }
                    },
                }
            } else {
                proof {
                    assert(tok0 =~= Seq::<char>::empty());
                    assert(spec_decode_loop(rem, tok0) == spec_decode_loop(rem1, seq![]));
                }
            }
        } else {
            tok.push(c);
            proof {
                assert(spec_decode_loop(rem, tok0) == spec_decode_loop(rem1, tok0.push(c)));
            }
        }
        i = i + 1;
    }
    proof {
        assert(morse@.skip(n as int) =~= Seq::<char>::empty());
    }
    if tok.len() > 0 {
        match token_lookup(&tok) {
            None => {
                return None;
            },
            Some(piece) => {
                out.append(piece);
            },
        }
    } else {
        proof {
            assert(out@ + Seq::<char>::empty() =~= out@);
        }
    }
    Some(out)
}

/// How the codec command is configured.
pub struct Config {
    pub direction: Direction,
    pub message: String,
}

/// The message words joined back together with single blanks.
pub open spec fn spec_join_args(parts: Seq<String>) -> Seq<char>
    decreases parts.len(),
{
    if parts.len() == 0 {
        seq![]
    } else if parts.len() == 1 {
        parts[0]@
    } else {
        parts[0]@ + seq![' '] + spec_join_args(parts.skip(1))
    }
}

/// Joins the argument words from index `i` on.
fn join_from(args: &[String], i: usize) -> (r: String)
    requires
        i <= args@.len(),
    ensures
        r@ == spec_join_args(args@.skip(i as int)),
    decreases args@.len() - i,
{
    proof {
        reveal_strlit(" ");
        assert(" "@ =~= seq![' ']);
    }
    if i == args.len() {
        proof {
            assert(args@.skip(i as int) =~= Seq::<String>::empty());
        }
        return String::new();
    }
    proof {
        assert(args@.skip(i as int)[0] == args@[i as int]);
    }
    if i + 1 == args.len() {
        proof {
            assert(args@.skip(i as int).len() == 1);
        }
        return args[i].clone();
    }
    let mut s = args[i].clone();
    s.append(" ");
    let rest = join_from(args, i + 1);
    s.append(rest.as_str());
    proof {
        assert(args@.skip(i as int).skip(1) =~= args@.skip(i as int + 1));
        assert(s@ =~= args@[i as int]@ + seq![' '] + spec_join_args(args@.skip(i as int + 1)));
    }
    s
}

/// The codec command takes a direction and at least one message word;
/// the words are joined back together with single blanks.
pub fn parse_args(args: &[String]) -> (r: Result<Config, &'static str>)
    ensures
        args@.len() < 3 ==> (r matches Err(m) && m@ == "Not enough args"@),
        args@.len() >= 3 && args@[1]@ != "to"@ && args@[1]@ != "from"@ ==> (r matches Err(m)
            && m@ == "Direction arg must be 'to' or 'from'"@),
        args@.len() >= 3 && (args@[1]@ == "to"@ || args@[1]@ == "from"@) ==> (r matches Ok(c) && {
            &&& (args@[1]@ == "to"@ ==> c.direction == Direction::To)
            &&& (args@[1]@ == "from"@ ==> c.direction == Direction::From)
            &&& c.message@ == spec_join_args(args@.skip(2))
        }),
{
    if args.len() < 3 {
        return Err("Not enough args");
    }
    let dir = match Direction::from_str(args[1].as_str()) {
        Ok(d) => d,
        Err(m) => { return Err(m); },
    };
    let msg = join_from(args, 2);
    Ok(Config { direction: dir, message: msg })
}

} // verus!
