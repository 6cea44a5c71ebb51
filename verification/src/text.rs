//! Building the texts that the shell sends to neovim.
use vstd::prelude::*;
use vstd::string::{StrSliceExecFns, StringExecFns};

verus! {

/// The decimal digit for a number below ten.
pub open spec fn digit(d: nat) -> char
    recommends
        d < 10,
{
    (48 + d) as char
}

/// A number in decimal notation, without leading zeros.
pub open spec fn decimal(n: nat) -> Seq<char>
    decreases n,
{
    if n < 10 {
        seq![digit(n)]
    } else {
        decimal(n / 10).push(digit(n % 10))
    }
}

/// The number that a sequence of decimal digits stands for.
pub open spec fn decimal_value(s: Seq<char>) -> nat
    decreases s.len(),
{
    if s.len() == 0 {
        0
    } else {
        decimal_value(s.drop_last()) * 10 + (s.last() as nat - 48) as nat
    }
}

/// Whether a character is one of `0` to `9`.
pub open spec fn is_digit(c: char) -> bool {
    48 <= c as nat <= 57
}

/// A number is read back from its decimal notation, which holds nothing but digits and is
/// never empty.
pub proof fn law_decimal_reads_back(n: nat)
    ensures
        decimal_value(decimal(n)) == n,
        decimal(n).len() > 0,
        forall|i: int| 0 <= i < decimal(n).len() ==> is_digit(#[trigger] decimal(n)[i]),
    decreases n,
{
    if n < 10 {
        assert(decimal(n).drop_last() =~= Seq::<char>::empty());
        assert(decimal_value(decimal(n).drop_last()) == 0);
    } else {
        law_decimal_reads_back(n / 10);
        assert(decimal(n).drop_last() =~= decimal(n / 10));
    }
}

/// Decimal notation has no zero in front, except for zero itself, which is one character.
pub proof fn law_decimal_has_no_zero_in_front(n: nat)
    ensures
        n == 0 ==> decimal(n) == seq!['0'],
        n > 0 ==> decimal(n)[0] != '0',
    decreases n,
{
    if n >= 10 {
        law_decimal_has_no_zero_in_front(n / 10);
        law_decimal_reads_back(n / 10);
    }
}

fn digit_text(d: u64) -> (text: &'static str)
    requires
        d < 10,
    ensures
        text@ == seq![digit(d as nat)],
{
    proof {
        reveal_strlit("0");
        reveal_strlit("1");
        reveal_strlit("2");
        reveal_strlit("3");
        reveal_strlit("4");
        reveal_strlit("5");
        reveal_strlit("6");
        reveal_strlit("7");
        reveal_strlit("8");
        reveal_strlit("9");
    }
    match d {
        0 => "0",
        1 => "1",
        2 => "2",
        3 => "3",
        4 => "4",
        5 => "5",
        6 => "6",
        7 => "7",
        8 => "8",
        _ => "9",
    }
}

/// Appends `n` in decimal notation.
pub fn push_decimal(out: &mut String, n: u64)
    ensures
        final(out)@ == old(out)@ + decimal(n as nat),
    decreases n,
{
    if n >= 10 {
        push_decimal(out, n / 10);
    }
    out.append(digit_text(n % 10));
    proof {
        assert(decimal(n as nat).len() > 0) by {
            law_decimal_reads_back(n as nat);
        }
        assert(out@ =~= old(out)@ + decimal(n as nat));
    }
}

/// `head` followed by `tail`.
pub fn joined(head: &str, tail: &str) -> (text: String)
    ensures
        text@ == head@ + tail@,
{
    let mut text = head.to_owned();
    text.append(tail);
    text
}

/// Whether a character counts as white space: whether it has the Unicode property `White_Space`.
pub open spec fn white_space(c: char) -> bool {
    ||| 0x9 <= c as nat <= 0xd
    ||| c as nat == 0x20
    ||| c as nat == 0x85
    ||| c as nat == 0xa0
    ||| c as nat == 0x1680
    ||| 0x2000 <= c as nat <= 0x200a
    ||| c as nat == 0x2028
    ||| c as nat == 0x2029
    ||| c as nat == 0x202f
    ||| c as nat == 0x205f
    ||| c as nat == 0x3000
}

fn is_white_space(c: char) -> (b: bool)
    ensures
        b == white_space(c),
{
    match c as u32 {
        0x9..=0xd | 0x20 | 0x85 | 0xa0 | 0x1680 => true,
        0x2000..=0x200a | 0x2028 | 0x2029 | 0x202f | 0x205f | 0x3000 => true,
        _ => false,
    }
}

/// A text without the white space at its start.
pub open spec fn trimmed_start(s: Seq<char>) -> Seq<char>
    decreases s.len(),
{
    if s.len() > 0 && white_space(s.first()) {
        trimmed_start(s.drop_first())
    } else {
        s
    }
}

/// A text without the white space at its end.
pub open spec fn trimmed_end(s: Seq<char>) -> Seq<char>
    decreases s.len(),
{
    if s.len() > 0 && white_space(s.last()) {
        trimmed_end(s.drop_last())
    } else {
        s
    }
}

/// A text without the white space around it.
pub open spec fn trimmed(s: Seq<char>) -> Seq<char> {
    trimmed_end(trimmed_start(s))
}

/// The part of `text` that is left without the white space around it.
pub fn trim(text: &str) -> (rest: &str)
    ensures
        rest@ == trimmed(text@),
{
    let len: usize = text.unicode_len();
    let mut from: usize = 0;
    assert(text@.subrange(0, len as int) =~= text@);
    while from < len && is_white_space(text.get_char(from))
        invariant
            len == text@.len(),
            from <= len,
            trimmed_start(text@) == trimmed_start(text@.subrange(from as int, len as int)),
        decreases len - from,
    {
        assert(text@.subrange(from as int, len as int).drop_first() =~= text@.subrange(
            from + 1,
            len as int,
        ));
        from = from + 1;
    }
    let ghost start = text@.subrange(from as int, len as int);
    let mut to: usize = len;
    while from < to && is_white_space(text.get_char(to - 1))
        invariant
            len == text@.len(),
            from <= to <= len,
            trimmed_end(start) == trimmed_end(text@.subrange(from as int, to as int)),
        decreases to,
    {
        assert(text@.subrange(from as int, to as int).drop_last() =~= text@.subrange(
            from as int,
            to - 1,
        ));
        to = to - 1;
    }
    text.substring_char(from, to)
}

/// What is trimmed off at both ends is white space, and what is left neither begins nor ends with
/// it. The result tells where the rest begins and ends in the text.
pub proof fn law_trimming_takes_white_space_off_the_ends(s: Seq<char>) -> (cut: (int, int))
    ensures
        0 <= cut.0 <= cut.1 <= s.len(),
        trimmed(s) == s.subrange(cut.0, cut.1),
        forall|i: int| 0 <= i < cut.0 ==> white_space(#[trigger] s[i]),
        forall|i: int| cut.1 <= i < s.len() ==> white_space(#[trigger] s[i]),
        trimmed(s).len() > 0 ==> !white_space(trimmed(s).first()) && !white_space(
            trimmed(s).last(),
        ),
{
    let from = lemma_trimmed_start(s);
    let rest = trimmed_start(s);
    let to = lemma_trimmed_end(rest);
    assert(trimmed(s) =~= s.subrange(from, from + to));
    assert forall|i: int| from + to <= i < s.len() implies white_space(#[trigger] s[i]) by {
        assert(rest[i - from] == s[i]);
    }
    (from, from + to)
}

proof fn lemma_trimmed_start(s: Seq<char>) -> (from: int)
    ensures
        0 <= from <= s.len(),
        trimmed_start(s) == s.subrange(from, s.len() as int),
        forall|i: int| 0 <= i < from ==> white_space(#[trigger] s[i]),
        from < s.len() ==> !white_space(s[from]),
    decreases s.len(),
{
    if s.len() > 0 && white_space(s.first()) {
        let from = lemma_trimmed_start(s.drop_first());
        assert(trimmed_start(s) =~= s.subrange(from + 1, s.len() as int));
        assert forall|i: int| 0 <= i < from + 1 implies white_space(#[trigger] s[i]) by {
            if i > 0 {
                assert(s.drop_first()[i - 1] == s[i]);
            }
        }
        from + 1
    } else {
        assert(s =~= s.subrange(0, s.len() as int));
        0
    }
}

proof fn lemma_trimmed_end(s: Seq<char>) -> (to: int)
    ensures
        0 <= to <= s.len(),
        trimmed_end(s) == s.subrange(0, to),
        forall|i: int| to <= i < s.len() ==> white_space(#[trigger] s[i]),
        to > 0 ==> !white_space(s[to - 1]),
    decreases s.len(),
{
    if s.len() > 0 && white_space(s.last()) {
        let to = lemma_trimmed_end(s.drop_last());
        assert(trimmed_end(s) =~= s.subrange(0, to));
        assert forall|i: int| to <= i < s.len() implies white_space(#[trigger] s[i]) by {
            if i < s.len() - 1 {
                assert(s.drop_last()[i] == s[i]);
            }
        }
        to
    } else {
        assert(s =~= s.subrange(0, s.len() as int));
        s.len() as int
    }
}

/// Whether a text is the single character `1`.
pub fn is_one(text: &str) -> (b: bool)
    ensures
        b == (text@ == "1"@),
{
    let b = text.unicode_len() == 1 && text.get_char(0) == '1';
    proof {
        reveal_strlit("1");
        assert(b ==> text@ =~= "1"@);
    }
    b
}

/// What a mouse key sends: its name in key notation, then the cell under the pointer.
pub open spec fn mouse_keys(key: Seq<char>, col: nat, row: nat) -> Seq<char> {
    key + seq!['<'] + decimal(col) + seq![','] + decimal(row) + seq!['>']
}

/// The keys that name a mouse key at a cell.
pub fn mouse_text(key: &str, col: u64, row: u64) -> (text: String)
    ensures
        text@ == mouse_keys(key@, col as nat, row as nat),
{
    let mut text = key.to_owned();
    proof {
        reveal_strlit("<");
        reveal_strlit(",");
        reveal_strlit(">");
    }
    text.append("<");
    push_decimal(&mut text, col);
    text.append(",");
    push_decimal(&mut text, row);
    text.append(">");
    assert(text@ =~= mouse_keys(key@, col as nat, row as nat));
    text
}

proof fn lemma_decimal_before_mark(a: nat, b: nat, x: char, y: char, p: Seq<char>, q: Seq<char>)
    requires
        !is_digit(x),
        !is_digit(y),
        decimal(a).push(x) + p == decimal(b).push(y) + q,
    ensures
        a == b,
        x == y,
        p == q,
{
    let s = decimal(a).push(x) + p;
    let t = decimal(b).push(y) + q;
    let n: int = decimal(a).len() as int;
    let m: int = decimal(b).len() as int;
    law_decimal_reads_back(a);
    law_decimal_reads_back(b);
    assert(s[n] == x);
    assert(t[m] == y);
    if n < m {
        assert(t[n] == decimal(b)[n]);
    }
    if m < n {
        assert(s[m] == decimal(a)[m]);
    }
    assert(s.subrange(0, n) =~= decimal(a));
    assert(t.subrange(0, m) =~= decimal(b));
    assert(s.subrange(n + 1, s.len() as int) =~= p);
    assert(t.subrange(m + 1, t.len() as int) =~= q);
}

/// Two mouse inputs of one key are the same text only for the same cell.
pub proof fn law_mouse_keys_name_the_cell(key: Seq<char>, col: nat, row: nat, col2: nat, row2: nat)
    requires
        mouse_keys(key, col, row) == mouse_keys(key, col2, row2),
    ensures
        col == col2,
        row == row2,
{
    let head = key + seq!['<'];
    let end = Seq::<char>::empty();
    let s = mouse_keys(key, col, row);
    let t = mouse_keys(key, col2, row2);
    let p = decimal(row).push('>') + end;
    let q = decimal(row2).push('>') + end;
    assert(s.subrange(head.len() as int, s.len() as int) =~= decimal(col).push(',') + p);
    assert(t.subrange(head.len() as int, t.len() as int) =~= decimal(col2).push(',') + q);
    lemma_decimal_before_mark(col, col2, ',', ',', p, q);
    lemma_decimal_before_mark(row, row2, '>', '>', end, end);
}

/// Mouse input is the key, then the column and the row between angle brackets, parted by a comma.
/// The result is the place of the comma.
pub proof fn law_mouse_keys_spell_the_cell(key: Seq<char>, col: nat, row: nat) -> (comma: int)
    ensures
        ({
            let text = mouse_keys(key, col, row);
            let open = key.len() as int;
            let close = text.len() - 1;
            &&& open + 1 < comma < close - 1
            &&& text.take(open) == key
            &&& text[open] == '<'
            &&& text[comma] == ','
            &&& text[close] == '>'
            &&& text.subrange(open + 1, comma) == decimal(col)
            &&& text.subrange(comma + 1, close) == decimal(row)
            &&& decimal_value(text.subrange(open + 1, comma)) == col
            &&& decimal_value(text.subrange(comma + 1, close)) == row
        }),
{
    let text = mouse_keys(key, col, row);
    let open = key.len() as int;
    let close = text.len() - 1;
    law_decimal_reads_back(col);
    law_decimal_reads_back(row);
    let comma = open + 1 + decimal(col).len();
    assert(text.take(open) =~= key);
    assert(text.subrange(open + 1, comma) =~= decimal(col));
    assert(text.subrange(comma + 1, close) =~= decimal(row));
    comma
}

/// The names that are there, in the order given, each behind a space.
pub open spec fn argument_words(names: Seq<Option<Seq<char>>>) -> Seq<char>
    decreases names.len(),
{
    if names.len() == 0 {
        Seq::empty()
    } else {
        match names.last() {
            Some(name) => argument_words(names.drop_last()) + " "@ + name,
            None => argument_words(names.drop_last()),
        }
    }
}

/// The command that makes files the argument list.
pub open spec fn argument_command(names: Seq<Option<Seq<char>>>) -> Seq<char> {
    ":ar"@ + argument_words(names)
}

/// The views of optional texts.
pub open spec fn optional_texts(names: Seq<Option<String>>) -> Seq<Option<Seq<char>>> {
    names.map_values(
        |name: Option<String>|
            match name {
                Some(text) => Some(text@),
                None => None,
            },
    )
}

/// Builds the command that opens the files of a drop. `names` has, for each dropped URI, the
/// escaped file name, or nothing where the URI names no file.
pub fn argument_text(names: &Vec<Option<String>>) -> (command: String)
    ensures
        command@ == argument_command(optional_texts(names@)),
{
    let mut command = ":ar".to_owned();
    let ghost all = optional_texts(names@);
    let mut i: usize = 0;
    while i < names.len()
        invariant
            i <= names.len(),
            all == optional_texts(names@),
            command@ =~= argument_command(all.take(i as int)),
        decreases names.len() - i,
    {
        assert(all.take(i + 1).drop_last() =~= all.take(i as int));
        match &names[i] {
            Some(name) => {
                command.append(" ");
                command.append(name.as_str());
            },
            None => {},
        }
        i = i + 1;
    }
    assert(all.take(i as int) =~= all);
    command
}

/// The command for a drop begins as `:ar`, which is all of it where nothing was dropped. One more
/// name at the end makes it longer by a space and that name, and one more URI that names no file
/// leaves it as it is.
pub proof fn law_each_dropped_name_is_an_argument(names: Seq<Option<String>>, name: String)
    ensures
        argument_command(optional_texts(Seq::empty())) == ":ar"@,
        argument_command(optional_texts(names.push(Some(name)))) == argument_command(
            optional_texts(names),
        ) + " "@ + name@,
        argument_command(optional_texts(names.push(None))) == argument_command(
            optional_texts(names),
        ),
{
    let before = optional_texts(names);
    assert(optional_texts(Seq::empty()) =~= Seq::empty());
    assert(argument_command(Seq::empty()) =~= ":ar"@);
    assert(optional_texts(names.push(Some(name))) =~= before.push(Some(name@)));
    assert(optional_texts(names.push(None)) =~= before.push(None));
    assert(before.push(Some(name@)).drop_last() =~= before);
    assert(before.push(None).drop_last() =~= before);
    assert(argument_command(before.push(Some(name@))) =~= argument_command(before) + " "@ + name@);
}

/// The command for a drop holds each name that is there, behind a space, wherever it stands in the
/// list: it begins with the command for the names before.
pub proof fn law_later_names_come_behind(a: Seq<Option<Seq<char>>>, b: Seq<Option<Seq<char>>>)
    ensures
        argument_command(a + b) == argument_command(a) + argument_words(b),
        argument_command(a).len() <= argument_command(a + b).len(),
        argument_command(a + b).take(argument_command(a).len() as int) == argument_command(a),
{
    law_argument_words_append(a, b);
    assert(argument_command(a + b) =~= argument_command(a) + argument_words(b));
    assert(argument_command(a + b).take(argument_command(a).len() as int) =~= argument_command(a));
}

/// The words for two lists of names in a row are those of the first, then those of the second,
/// and a URI that names no file adds nothing.
pub proof fn law_argument_words_append(a: Seq<Option<Seq<char>>>, b: Seq<Option<Seq<char>>>)
    ensures
        argument_words(a + b) == argument_words(a) + argument_words(b),
        argument_words(a + seq![None] + b) == argument_words(a + b),
    decreases b.len(),
{
    if b.len() == 0 {
        assert(a + b =~= a);
        assert((a + seq![None] + b).drop_last() =~= a);
    } else {
        law_argument_words_append(a, b.drop_last());
        assert((a + b).drop_last() =~= a + b.drop_last());
        assert((a + seq![None] + b).drop_last() =~= a + seq![None] + b.drop_last());
    }
}

} // verus!
