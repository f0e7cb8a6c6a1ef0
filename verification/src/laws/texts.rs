//! What trimming, splitting and writing numbers come to, and how colors and paths are written.

use vstd::prelude::*;

use crate::auth;
use crate::cache;
use crate::color;
use crate::color::Rgb;
use crate::labels;
use crate::labels::Label;
use crate::laws;
use crate::page;
use crate::page::DEFAULT_COLOR;
use crate::text;

verus! {

// ── Trimming ─────────────────────────────────────────────────────────────

/// Whether a text is all white space.
pub open spec fn all_white(s: Seq<char>) -> bool {
    forall|i: int| 0 <= i < s.len() ==> text::is_white_space(#[trigger] s[i])
}

/// White space of ASCII is the space and the five controls from the tabulator to the carriage
/// return. No letter, digit or mark is white space.
pub proof fn white_space_of_ascii(c: char)
    requires
        (c as int) < 128,
    ensures
        text::is_white_space(c) <==> c as int == 32 || 9 <= c as int <= 13,
{
}

/// Where the front of a text ends that is cut off.
proof fn lemma_front(s: Seq<char>) -> (from: int)
    ensures
        0 <= from <= s.len(),
        text::trim_front(s) == s.skip(from),
        all_white(s.take(from)),
        from < s.len() ==> !text::is_white_space(s[from]),
    decreases s.len(),
{
    if s.len() > 0 && text::is_white_space(s[0]) {
        let rest = lemma_front(s.skip(1));
        assert(s.skip(1).skip(rest) =~= s.skip(rest + 1));
        assert forall|i: int| 0 <= i < rest + 1 implies text::is_white_space(
            #[trigger] s.take(rest + 1)[i],
        ) by {
            if i > 0 {
                assert(s.skip(1).take(rest)[i - 1] == s[i]);
            }
        }
        rest + 1
    } else {
        assert(s.skip(0) =~= s);
        0
    }
}

/// Where the back of a text begins that is cut off.
proof fn lemma_back(s: Seq<char>) -> (to: int)
    ensures
        0 <= to <= s.len(),
        text::trim_back(s) == s.take(to),
        all_white(s.skip(to)),
        to > 0 ==> !text::is_white_space(s[to - 1]),
    decreases s.len(),
{
    if s.len() > 0 && text::is_white_space(s.last()) {
        let to = lemma_back(s.drop_last());
        assert(s.drop_last().take(to) =~= s.take(to));
        assert forall|i: int| 0 <= i < s.skip(to).len() implies text::is_white_space(
            #[trigger] s.skip(to)[i],
        ) by {
            if i < s.len() - 1 - to {
                assert(s.drop_last().skip(to)[i] == s[to + i]);
            }
        }
        to
    } else {
        assert(s.take(s.len() as int) =~= s);
        s.len() as int
    }
}

/// A text is some white space, what is left of it when it is trimmed, and some white space. What is
/// left has white space at neither end.
pub proof fn trimming_cuts_white_space_off(s: Seq<char>) -> (r: (Seq<char>, Seq<char>))
    ensures
        s == r.0 + text::trimmed(s) + r.1,
        all_white(r.0),
        all_white(r.1),
        text::trimmed(s).len() > 0 ==> !text::is_white_space(text::trimmed(s)[0])
            && !text::is_white_space(text::trimmed(s).last()),
{
    let from = lemma_front(s);
    let front = s.skip(from);
    let to = lemma_back(front);
    let r = (s.take(from), front.skip(to));
    assert(s =~= r.0 + front.take(to) + r.1);
    if front.take(to).len() > 0 {
        assert(front.take(to)[0] == s[from]);
    }
    r
}

/// The path that is looked up for the form is what was written as its address, but for white space
/// at the ends.
pub proof fn path_to_check_is_what_was_written(page: page::PageView) -> (r: (Seq<char>, Seq<char>))
    ensures
        page.form_url == r.0 + page.path_to_check() + r.1,
        all_white(r.0),
        all_white(r.1),
        page.path_to_check().len() > 0 ==> !text::is_white_space(page.path_to_check()[0])
            && !text::is_white_space(page.path_to_check().last()),
{
    trimming_cuts_white_space_off(page.form_url)
}

/// A text is blank exactly if it is all white space.
pub proof fn blank_is_all_white(s: Seq<char>)
    ensures
        text::is_blank(s) <==> all_white(s),
{
    let r = trimming_cuts_white_space_off(s);
    if text::is_blank(s) {
        assert forall|i: int| 0 <= i < s.len() implies text::is_white_space(#[trigger] s[i]) by {
            if i < r.0.len() {
                assert(s[i] == r.0[i]);
            } else {
                assert(s[i] == r.1[i - r.0.len()]);
            }
        }
    } else {
        assert(text::trimmed(s)[0] == s[r.0.len() as int]);
    }
}

/// A text without a run of a character at its front is what comes after that run, and does not
/// begin with the character.
pub proof fn run_at_the_front_is_cut_off(s: Seq<char>, c: char) -> (n: int)
    ensures
        0 <= n <= s.len(),
        text::without_front(s, c) == s.skip(n),
        forall|i: int| 0 <= i < n ==> #[trigger] s[i] == c,
        n < s.len() ==> s[n] != c,
    decreases s.len(),
{
    if s.len() > 0 && s[0] == c {
        let rest = run_at_the_front_is_cut_off(s.skip(1), c);
        assert(s.skip(1).skip(rest) =~= s.skip(rest + 1));
        assert forall|i: int| 0 <= i < rest + 1 implies #[trigger] s[i] == c by {
            if i > 0 {
                assert(s.skip(1)[i - 1] == s[i]);
            }
        }
        rest + 1
    } else {
        assert(s.skip(0) =~= s);
        0
    }
}

/// A text without a run of a character at its back is what comes before that run, and does not end
/// with the character.
pub proof fn run_at_the_back_is_cut_off(s: Seq<char>, c: char) -> (n: int)
    ensures
        0 <= n <= s.len(),
        text::without_back(s, c) == s.take(n),
        forall|i: int| n <= i < s.len() ==> #[trigger] s[i] == c,
        n > 0 ==> s[n - 1] != c,
    decreases s.len(),
{
    if s.len() > 0 && s.last() == c {
        let n = run_at_the_back_is_cut_off(s.drop_last(), c);
        assert(s.drop_last().take(n) =~= s.take(n));
        assert forall|i: int| n <= i < s.len() implies #[trigger] s[i] == c by {
            if i < s.len() - 1 {
                assert(s.drop_last()[i] == s[i]);
            }
        }
        n
    } else {
        assert(s.take(s.len() as int) =~= s);
        s.len() as int
    }
}

// ── Splitting ────────────────────────────────────────────────────────────

/// Pieces that are put together again, with the separator between them, are the text; and none of
/// them has the separator in it.
pub proof fn pieces_make_the_text(s: Seq<char>, sep: char)
    ensures
        text::split_on(s, sep).len() > 0,
        text::joined(text::split_on(s, sep), seq![sep]) == s,
        forall|i: int|
            0 <= i < text::split_on(s, sep).len() ==> !(#[trigger] text::split_on(
                s,
                sep,
            )[i]).contains(sep),
    decreases s.len(),
{
    text::lemma_split_on_some(s, sep);
    let pieces = text::split_on(s, sep);
    if s.len() == 0 {
        assert(pieces[0] =~= s);
    } else {
        let front = s.drop_last();
        let before = text::split_on(front, sep);
        pieces_make_the_text(front, sep);
        if s.last() == sep {
            assert(pieces.drop_last() =~= before);
            assert(text::joined(pieces, seq![sep]) =~= front + seq![sep] + Seq::<char>::empty());
            assert(front + seq![sep] + Seq::<char>::empty() =~= s);
        } else {
            assert(pieces.last() == before.last().push(s.last()));
            assert forall|i: int| 0 <= i < pieces.len() implies !(#[trigger] pieces[i]).contains(
                sep,
            ) by {
                assert(!before[i].contains(sep));
                if i == pieces.len() - 1 {
                    let last = pieces[i];
                    assert forall|k: int| 0 <= k < last.len() implies last[k] != sep by {
                        if k < before.last().len() {
                            assert(before.last()[k] == last[k]);
                        }
                    }
                }
            }
            if pieces.len() == 1 {
                assert(pieces[0] =~= s);
            } else {
                assert(pieces.drop_last() =~= before.drop_last());
                let joined = text::joined(before.drop_last(), seq![sep]);
                assert(front == joined + seq![sep] + before.last());
                assert(s =~= front.push(s.last()));
                assert((joined + seq![sep] + before.last()).push(s.last()) =~= joined + seq![sep]
                    + pieces.last());
            }
        }
    }
}

/// A text that is parted at a separator is what comes before it, the separator, and what comes
/// after; and it is parted at the first one.
pub proof fn parts_make_the_text(s: Seq<char>, sep: char)
    ensures
        match text::split_once_on(s, sep) {
            Some(parts) => s == parts.0 + seq![sep] + parts.1 && !parts.0.contains(sep),
            None => !s.contains(sep),
        },
{
    if s.contains(sep) {
        s.index_of_first_ensures(sep);
        let i = s.index_of_first(sep)->0;
        assert(s =~= s.take(i) + seq![sep] + s.skip(i + 1));
        if s.take(i).contains(sep) {
            let k = s.take(i).index_of(sep);
            assert(s[k] == sep);
        }
    }
}

/// Whether a text is one word: it is not empty, and has no white space in it.
pub open spec fn is_word(s: Seq<char>) -> bool {
    &&& s.len() > 0
    &&& forall|i: int| 0 <= i < s.len() ==> !text::is_white_space(#[trigger] s[i])
}

/// One word is the only word of itself.
proof fn lemma_one_word(word: Seq<char>)
    requires
        is_word(word),
    ensures
        text::words_of(word) == seq![word],
    decreases word.len(),
{
    let front = word.drop_last();
    assert(!text::is_white_space(word[word.len() - 1]));
    if front.len() == 0 {
        assert(text::words_of(front) =~= Seq::empty());
        assert(seq![word.last()] =~= word);
        assert(text::words_of(word) =~= seq![word]);
    } else {
        assert forall|i: int| 0 <= i < front.len() implies !text::is_white_space(
            #[trigger] front[i],
        ) by {
            assert(front[i] == word[i]);
        }
        lemma_one_word(front);
        assert(front.last() == word[front.len() - 1]);
        assert(front.push(word.last()) =~= word);
        assert(text::words_of(word) =~= seq![word]);
    }
}

/// The words of a text are its first word and the words of what comes after the white space behind
/// it.
pub proof fn words_are_parted_by_white_space(word: Seq<char>, space: char, rest: Seq<char>)
    requires
        is_word(word),
        text::is_white_space(space),
    ensures
        text::words_of(word) == seq![word],
        text::words_of(word.push(space) + rest) == seq![word] + text::words_of(rest),
    decreases rest.len(),
{
    lemma_one_word(word);
    let whole = word.push(space) + rest;
    if rest.len() == 0 {
        assert(whole =~= word.push(space));
        assert(whole.drop_last() =~= word);
        assert(text::words_of(rest) =~= Seq::empty());
        assert(text::words_of(whole) =~= seq![word] + text::words_of(rest));
    } else {
        let shorter = rest.drop_last();
        words_are_parted_by_white_space(word, space, shorter);
        assert(whole.drop_last() =~= word.push(space) + shorter);
        assert(whole.drop_last().last() == if shorter.len() == 0 {
            space
        } else {
            shorter.last()
        });
        lemma_words_there(shorter);
        assert(text::words_of(whole) =~= seq![word] + text::words_of(rest));
    }
}

/// A text that does not end with white space has a word.
proof fn lemma_words_there(s: Seq<char>)
    ensures
        s.len() > 0 && !text::is_white_space(s.last()) ==> text::words_of(s).len() > 0,
    decreases s.len(),
{
    if s.len() > 0 {
        lemma_words_there(s.drop_last());
    }
}

/// White space in front of a text adds no word.
pub proof fn white_space_in_front_is_no_word(space: char, rest: Seq<char>)
    requires
        text::is_white_space(space),
    ensures
        text::words_of(seq![space] + rest) == text::words_of(rest),
    decreases rest.len(),
{
    let whole = seq![space] + rest;
    if rest.len() == 0 {
        assert(whole.drop_last() =~= rest);
        assert(whole.last() == space);
    } else {
        let shorter = rest.drop_last();
        assert(whole.last() == rest.last());
        white_space_in_front_is_no_word(space, shorter);
        assert(whole.drop_last() =~= seq![space] + shorter);
        assert(whole.drop_last().last() == if shorter.len() == 0 {
            space
        } else {
            shorter.last()
        });
    }
}

// ── Scopes ───────────────────────────────────────────────────────────────

/// Pieces of two texts with a separator between them.
proof fn lemma_pieces_of_two(a: Seq<char>, b: Seq<char>, sep: char)
    ensures
        text::split_on(a.push(sep) + b, sep) == text::split_on(a, sep) + text::split_on(b, sep),
    decreases b.len(),
{
    let whole = a.push(sep) + b;
    text::lemma_split_on_some(b, sep);
    if b.len() == 0 {
        assert(whole =~= a.push(sep));
        assert(whole.drop_last() =~= a);
        assert(text::split_on(whole, sep) =~= text::split_on(a, sep) + text::split_on(b, sep));
    } else {
        let shorter = b.drop_last();
        lemma_pieces_of_two(a, shorter, sep);
        text::lemma_split_on_some(shorter, sep);
        assert(whole.drop_last() =~= a.push(sep) + shorter);
        assert(text::split_on(whole, sep) =~= text::split_on(a, sep) + text::split_on(b, sep));
    }
}

/// A filter goes through two lists one after the other.
proof fn lemma_filter_both(
    a: Seq<Seq<char>>,
    b: Seq<Seq<char>>,
    kept: spec_fn(Seq<char>) -> bool,
)
    ensures
        (a + b).filter(kept) == a.filter(kept) + b.filter(kept),
    decreases b.len(),
{
    reveal(Seq::filter);
    if b.len() == 0 {
        assert(a + b =~= a);
        assert(b.filter(kept) =~= Seq::empty());
        assert(a.filter(kept) + b.filter(kept) =~= a.filter(kept));
    } else {
        lemma_filter_both(a, b.drop_last(), kept);
        assert((a + b).drop_last() =~= a + b.drop_last());
        assert((a + b).filter(kept) =~= a.filter(kept) + b.filter(kept));
    }
}

/// The scopes that a line names are those of what stands before a comma and then those of what
/// stands after it. A line without a comma names one scope, its text without white space at the
/// ends, or none if it is blank.
pub proof fn scopes_stand_between_commas(a: Seq<char>, b: Seq<char>)
    ensures
        page::scope_list(a.push(',') + b) == page::scope_list(a) + page::scope_list(b),
        !a.contains(',') ==> page::scope_list(a) == if all_white(a) {
            Seq::<Seq<char>>::empty()
        } else {
            seq![text::trimmed(a)]
        },
{
    let trim = |s: Seq<char>| text::trimmed(s);
    let kept = |s: Seq<char>| s.len() > 0;
    let first = text::split_on(a, ',');
    let second = text::split_on(b, ',');
    lemma_pieces_of_two(a, b, ',');
    assert((first + second).map_values(trim) =~= first.map_values(trim) + second.map_values(trim));
    lemma_filter_both(first.map_values(trim), second.map_values(trim), kept);
    if !a.contains(',') {
        laws::lemma_one_piece(a, ',');
        blank_is_all_white(a);
        reveal(Seq::filter);
        let one = first.map_values(trim);
        assert(one =~= seq![text::trimmed(a)]);
        assert(one.drop_last() =~= Seq::empty());
        assert(one.drop_last().filter(kept) =~= Seq::empty());
        assert(page::scope_list(a) =~= if all_white(a) {
            Seq::<Seq<char>>::empty()
        } else {
            seq![text::trimmed(a)]
        });
    }
}

/// The scopes that the form proposes are the usual four.
pub proof fn proposed_scopes_are_the_usual_ones()
    ensures
        page::scope_list(page::DEFAULT_SCOPES@) == seq![
            "openid"@,
            "profile"@,
            "email"@,
            "offline_access"@,
        ],
{
    let scopes = seq!["openid"@, "profile"@, "email"@, "offline_access"@];
    reveal_strlit("openid");
    reveal_strlit("profile");
    reveal_strlit("email");
    reveal_strlit("offline_access");
    reveal_strlit("openid, profile, email, offline_access");
    reveal_strlit(", ");
    assert forall|i: int| 0 <= i < scopes.len() implies laws::is_writable_scope(
        #[trigger] scopes[i],
    ) by {
        assert(i == 0 || i == 1 || i == 2 || i == 3);
    }
    reveal_with_fuel(text::joined, 5);
    let first = seq!["openid"@];
    let second = seq!["openid"@, "profile"@];
    let third = seq!["openid"@, "profile"@, "email"@];
    assert(scopes.drop_last() =~= third);
    assert(third.drop_last() =~= second);
    assert(second.drop_last() =~= first);
    assert(text::joined(scopes, ", "@) =~= page::DEFAULT_SCOPES@);
    laws::shown_scopes_are_read_back(scopes);
}

// ── Numbers ──────────────────────────────────────────────────────────────

/// The number that decimal digits write.
pub open spec fn value_of(digits: Seq<char>) -> int
    decreases digits.len(),
{
    if digits.len() == 0 {
        0
    } else {
        10 * value_of(digits.drop_last()) + (digits.last() as int - '0' as int)
    }
}

/// A number that is written in decimal is read back as it was. It is written in digits only, and
/// begins with no nought unless it is nought.
pub proof fn written_number_is_read_back(n: nat)
    ensures
        value_of(text::decimal(n)) == n,
        text::decimal(n).len() > 0,
        forall|i: int|
            0 <= i < text::decimal(n).len() ==> '0' <= #[trigger] text::decimal(n)[i] <= '9',
        n > 0 ==> text::decimal(n)[0] != '0',
    decreases n,
{
    reveal_strlit("0123456789");
    let digits = text::decimal(n);
    if n < 10 {
        assert(digits.drop_last() =~= Seq::empty());
        assert(value_of(digits.drop_last()) == 0);
        assert(text::digit_char(n) as int == '0' as int + n);
    } else {
        written_number_is_read_back(n / 10);
        assert(digits.drop_last() =~= text::decimal(n / 10));
        assert(text::digit_char(n % 10) as int == '0' as int + n % 10);
        assert forall|i: int| 0 <= i < digits.len() implies '0' <= #[trigger] digits[i] <= '9' by {
            if i < digits.len() - 1 {
                assert(digits[i] == text::decimal(n / 10)[i]);
            }
        }
        assert(digits[0] == text::decimal(n / 10)[0]);
    }
}

/// Forms that are opened at different times have different ids.
pub proof fn ids_of_forms_differ(a: u128, b: u128)
    requires
        page::form_id(a) == page::form_id(b),
    ensures
        a == b,
{
    let prefix = "form-"@;
    written_number_is_read_back(a as nat);
    written_number_is_read_back(b as nat);
    assert(page::form_id(a).skip(prefix.len() as int) =~= text::decimal(a as nat));
    assert(page::form_id(b).skip(prefix.len() as int) =~= text::decimal(b as nat));
}

// ── Colors ───────────────────────────────────────────────────────────────

/// The colors that are offered, by their parts, in their order.
pub open spec fn offered_parts() -> Seq<Rgb> {
    seq![
        Rgb { red: 0x1a, green: 0x73, blue: 0xe8 },
        Rgb { red: 0xd5, green: 0x00, blue: 0x00 },
        Rgb { red: 0xe6, green: 0x7c, blue: 0x73 },
        Rgb { red: 0xf4, green: 0x51, blue: 0x1e },
        Rgb { red: 0xf6, green: 0xbf, blue: 0x26 },
        Rgb { red: 0x33, green: 0xb6, blue: 0x79 },
        Rgb { red: 0x0b, green: 0x80, blue: 0x43 },
        Rgb { red: 0x03, green: 0x9b, blue: 0xe5 },
        Rgb { red: 0x79, green: 0x86, blue: 0xcb },
        Rgb { red: 0x8e, green: 0x24, blue: 0xaa },
        Rgb { red: 0x61, green: 0x61, blue: 0x61 },
        Rgb { red: 0x79, green: 0x55, blue: 0x48 },
    ]
}

/// Each color that is offered is read as the color that it is, and the default is the first of
/// them.
pub proof fn offered_colors_are_read_as_they_are(k: int)
    requires
        0 <= k < 12,
    ensures
        color::preset_colors().len() == 12,
        color::preset_colors()[0] == DEFAULT_COLOR@,
        color::has_whole_parts(color::preset_colors()[k]),
        color::written_color(color::preset_colors()[k]) == offered_parts()[k],
{
    reveal_strlit("#1a73e8");
    reveal_strlit("#d50000");
    reveal_strlit("#e67c73");
    reveal_strlit("#f4511e");
    reveal_strlit("#f6bf26");
    reveal_strlit("#33b679");
    reveal_strlit("#0b8043");
    reveal_strlit("#039be5");
    reveal_strlit("#7986cb");
    reveal_strlit("#8e24aa");
    reveal_strlit("#616161");
    reveal_strlit("#795548");
    color::written_color_is_read_back(offered_parts()[k]);
    assert(color::preset_colors()[k] =~= color::hex_text(offered_parts()[k]));
}

/// The way in which a digit is written with a capital letter.
pub open spec fn capital_digit(n: int) -> char {
    if n < 10 {
        (0x30 + n) as char
    } else {
        (0x41 + n - 10) as char
    }
}

/// The way in which a color is written with capital letters, without a number sign.
pub open spec fn capital_text(color: Rgb) -> Seq<char> {
    seq![
        capital_digit(color.red as int / 16),
        capital_digit(color.red as int % 16),
        capital_digit(color.green as int / 16),
        capital_digit(color.green as int % 16),
        capital_digit(color.blue as int / 16),
        capital_digit(color.blue as int % 16),
    ]
}

/// Capital letters write the same color, and so does a text without a number sign.
pub proof fn capital_letters_write_the_same_color(color: Rgb)
    ensures
        color::has_whole_parts(capital_text(color)),
        color::written_color(capital_text(color)) == color,
{
    let digits = capital_text(color);
    assert(text::without_front(digits, '#') == digits) by {
        reveal_with_fuel(text::without_front, 2);
    }
    assert(vstd::utf8::is_ascii_chars(digits));
    vstd::utf8::is_ascii_chars_encode_utf8(digits);
    assert(color::color_bytes(digits).len() == 6);
}

/// Every text of ASCII can be read as a color.
pub proof fn plain_text_can_be_read_as_a_color(hex: Seq<char>)
    requires
        vstd::utf8::is_ascii_chars(hex),
    ensures
        color::has_whole_parts(hex),
{
    let n = run_at_the_front_is_cut_off(hex, '#');
    let digits = hex.skip(n);
    assert forall|i: int| 0 <= i < digits.len() implies '\0' <= #[trigger] digits[i]
        <= '\u{7f}' by {
        assert(digits[i] == hex[n + i]);
    }
    vstd::utf8::is_ascii_chars_encode_utf8(digits);
}

/// A text can be read as a color exactly if it is too short for one, or no character reaches from one
/// of its three parts into what follows it.
pub proof fn parts_of_a_color_hold_whole_characters(hex: Seq<char>)
    ensures
        ({
            let bytes = vstd::utf8::encode_utf8(text::without_front(hex, '#'));
            let goes_on = |at: int| at < bytes.len() && 0x80 <= bytes[at] <= 0xbf;
            color::has_whole_parts(hex) <==> bytes.len() < 6 || (!goes_on(2) && !goes_on(4)
                && !goes_on(6))
        }),
{
}

/// A text that is too short to write a color stands for grey, and so does each part that cannot be
/// read: what is left of the color is kept.
pub proof fn unreadable_colors_are_grey(hex: Seq<char>)
    ensures
        ({
            let bytes = color::color_bytes(hex);
            let read = color::written_color(hex);
            let is_digit = |b: u8| 0x30 <= b <= 0x39 || 0x41 <= b <= 0x46 || 0x61 <= b <= 0x66;
            &&& bytes.len() < 6 ==> read == Rgb { red: 128, green: 128, blue: 128 }
            &&& bytes.len() >= 6 && !is_digit(bytes[1]) ==> read.red == 128
            &&& bytes.len() >= 6 && !is_digit(bytes[3]) ==> read.green == 128
            &&& bytes.len() >= 6 && !is_digit(bytes[5]) ==> read.blue == 128
            &&& bytes.len() >= 6 && !is_digit(bytes[0]) && bytes[0] != 0x2b ==> read.red == 128
            &&& bytes.len() >= 6 && !is_digit(bytes[2]) && bytes[2] != 0x2b ==> read.green == 128
            &&& bytes.len() >= 6 && !is_digit(bytes[4]) && bytes[4] != 0x2b ==> read.blue == 128
        }),
{
}

// ── Paths of the cache ───────────────────────────────────────────────────

/// The cached events lie in two files in one directory of the settings. The directory that is set
/// counts, unless it is empty; else it is the usual one in the home directory. Where neither is
/// known there is nothing to delete.
pub proof fn cache_lies_with_the_settings(dir: Seq<char>, home: Option<Seq<char>>)
    ensures
        ({
            let events = |root: Seq<Seq<char>>|
                root + seq![
                    "cosmic"@,
                    "com.system76.CosmicAppletTime.Calendar"@,
                    "v1"@,
                    "event_cache.json"@,
                ];
            let tags = |root: Seq<Seq<char>>|
                root + seq![
                    "cosmic"@,
                    "com.system76.CosmicAppletTime.Calendar"@,
                    "v1"@,
                    "ctag_cache.json"@,
                ];
            let both = |root: Seq<Seq<char>>| seq![events(root), tags(root)];
            &&& dir.len() > 0 ==> cache::cache_paths(Some(dir), home) == both(seq![dir])
            &&& dir.len() == 0 ==> cache::cache_paths(Some(dir), home) == cache::cache_paths(
                None,
                home,
            )
            &&& cache::cache_paths(None, Some(dir)) == both(seq![dir, ".config"@])
            &&& cache::cache_paths(None, None) == Seq::<Seq<Seq<char>>>::empty()
        }),
{
}

// ── Message ids ──────────────────────────────────────────────────────────

/// What is behind the common front of the id of a label.
pub open spec fn own_part_of_id(label: Label) -> Seq<char> {
    match label {
        Label::Sources => "sources"@,
        Label::NoSources => "no-sources"@,
        Label::AddSource => "add-source"@,
        Label::EditSource => "edit-source"@,
        Label::TypeCalDav => "source-type-caldav"@,
        Label::TypeIcsUrl => "source-type-ics-url"@,
        Label::TypeIcsFile => "source-type-ics-file"@,
        Label::SourceName => "source-name"@,
        Label::SourceType => "source-type"@,
        Label::SourceUrl => "source-url"@,
        Label::SourcePath => "source-path"@,
        Label::SourceColor => "source-color"@,
        Label::NameRequired => "validation-name-required"@,
        Label::FileNotFound => "validation-file-not-found"@,
        Label::UrlInvalid => "validation-url-invalid"@,
        Label::Auth => "source-auth"@,
        Label::AuthNone => "source-auth-none"@,
        Label::AuthBasic => "source-auth-basic"@,
        Label::AuthBearer => "source-auth-bearer"@,
        Label::AuthOidc => "source-auth-oidc"@,
        Label::Username => "source-username"@,
        Label::Password => "source-password"@,
        Label::Token => "source-token"@,
        Label::OidcIssuer => "source-oidc-issuer"@,
        Label::OidcClientId => "source-oidc-client-id"@,
        Label::OidcClientSecret => "source-oidc-client-secret"@,
        Label::OidcClientSecretHint => "source-oidc-client-secret-hint"@,
        Label::OidcScopes => "source-oidc-scopes"@,
        Label::OidcCallbackUrl => "source-oidc-callback-url"@,
        Label::OidcCallbackPattern => "source-oidc-callback-pattern"@,
        Label::OidcLogin => "source-oidc-login"@,
        Label::OidcLoginFirst => "form-oidc-login-first"@,
        Label::AuthExpiredReauth => "auth-expired-reauth"@,
        Label::CaCert => "source-ca-cert"@,
        Label::Browse => "browse"@,
        Label::Save => "save"@,
        Label::Cancel => "cancel"@,
        Label::Discover => "discover"@,
        Label::Discovering => "discovering"@,
        Label::DiscoverError => "discover-error"@,
        Label::SyncSettings => "sync-settings"@,
        Label::SyncInterval => "sync-interval"@,
        Label::UpcomingCount => "upcoming-count"@,
        Label::EncryptionMode => "encryption-mode"@,
        Label::EncryptionNone => "encryption-none"@,
        Label::EncryptionAuto => "encryption-auto"@,
        Label::EncryptionManual => "encryption-manual"@,
    }
}

/// The ids of all labels begin alike, and go on with what is their own.
pub proof fn ids_of_labels_begin_alike(label: Label)
    ensures
        labels::label_key(label) == "calendar-"@ + own_part_of_id(label),
{
    reveal_strlit("calendar-");
    match label {
        Label::Sources => {
            reveal_strlit("sources");
            reveal_strlit("calendar-sources");
        },
        Label::NoSources => {
            reveal_strlit("no-sources");
            reveal_strlit("calendar-no-sources");
        },
        Label::AddSource => {
            reveal_strlit("add-source");
            reveal_strlit("calendar-add-source");
        },
        Label::EditSource => {
            reveal_strlit("edit-source");
            reveal_strlit("calendar-edit-source");
        },
        Label::TypeCalDav => {
            reveal_strlit("source-type-caldav");
            reveal_strlit("calendar-source-type-caldav");
        },
        Label::TypeIcsUrl => {
            reveal_strlit("source-type-ics-url");
            reveal_strlit("calendar-source-type-ics-url");
        },
        Label::TypeIcsFile => {
            reveal_strlit("source-type-ics-file");
            reveal_strlit("calendar-source-type-ics-file");
        },
        Label::SourceName => {
            reveal_strlit("source-name");
            reveal_strlit("calendar-source-name");
        },
        Label::SourceType => {
            reveal_strlit("source-type");
            reveal_strlit("calendar-source-type");
        },
        Label::SourceUrl => {
            reveal_strlit("source-url");
            reveal_strlit("calendar-source-url");
        },
        Label::SourcePath => {
            reveal_strlit("source-path");
            reveal_strlit("calendar-source-path");
        },
        Label::SourceColor => {
            reveal_strlit("source-color");
            reveal_strlit("calendar-source-color");
        },
        Label::NameRequired => {
            reveal_strlit("validation-name-required");
            reveal_strlit("calendar-validation-name-required");
        },
        Label::FileNotFound => {
            reveal_strlit("validation-file-not-found");
            reveal_strlit("calendar-validation-file-not-found");
        },
        Label::UrlInvalid => {
            reveal_strlit("validation-url-invalid");
            reveal_strlit("calendar-validation-url-invalid");
        },
        Label::Auth => {
            reveal_strlit("source-auth");
            reveal_strlit("calendar-source-auth");
        },
        Label::AuthNone => {
            reveal_strlit("source-auth-none");
            reveal_strlit("calendar-source-auth-none");
        },
        Label::AuthBasic => {
            reveal_strlit("source-auth-basic");
            reveal_strlit("calendar-source-auth-basic");
        },
        Label::AuthBearer => {
            reveal_strlit("source-auth-bearer");
            reveal_strlit("calendar-source-auth-bearer");
        },
        Label::AuthOidc => {
            reveal_strlit("source-auth-oidc");
            reveal_strlit("calendar-source-auth-oidc");
        },
        Label::Username => {
            reveal_strlit("source-username");
            reveal_strlit("calendar-source-username");
        },
        Label::Password => {
            reveal_strlit("source-password");
            reveal_strlit("calendar-source-password");
        },
        Label::Token => {
            reveal_strlit("source-token");
            reveal_strlit("calendar-source-token");
        },
        Label::OidcIssuer => {
            reveal_strlit("source-oidc-issuer");
            reveal_strlit("calendar-source-oidc-issuer");
        },
        Label::OidcClientId => {
            reveal_strlit("source-oidc-client-id");
            reveal_strlit("calendar-source-oidc-client-id");
        },
        Label::OidcClientSecret => {
            reveal_strlit("source-oidc-client-secret");
            reveal_strlit("calendar-source-oidc-client-secret");
        },
        Label::OidcClientSecretHint => {
            reveal_strlit("source-oidc-client-secret-hint");
            reveal_strlit("calendar-source-oidc-client-secret-hint");
        },
        Label::OidcScopes => {
            reveal_strlit("source-oidc-scopes");
            reveal_strlit("calendar-source-oidc-scopes");
        },
        Label::OidcCallbackUrl => {
            reveal_strlit("source-oidc-callback-url");
            reveal_strlit("calendar-source-oidc-callback-url");
        },
        Label::OidcCallbackPattern => {
            reveal_strlit("source-oidc-callback-pattern");
            reveal_strlit("calendar-source-oidc-callback-pattern");
        },
        Label::OidcLogin => {
            reveal_strlit("source-oidc-login");
            reveal_strlit("calendar-source-oidc-login");
        },
        Label::OidcLoginFirst => {
            reveal_strlit("form-oidc-login-first");
            reveal_strlit("calendar-form-oidc-login-first");
        },
        Label::AuthExpiredReauth => {
            reveal_strlit("auth-expired-reauth");
            reveal_strlit("calendar-auth-expired-reauth");
        },
        Label::CaCert => {
            reveal_strlit("source-ca-cert");
            reveal_strlit("calendar-source-ca-cert");
        },
        Label::Browse => {
            reveal_strlit("browse");
            reveal_strlit("calendar-browse");
        },
        Label::Save => {
            reveal_strlit("save");
            reveal_strlit("calendar-save");
        },
        Label::Cancel => {
            reveal_strlit("cancel");
            reveal_strlit("calendar-cancel");
        },
        Label::Discover => {
            reveal_strlit("discover");
            reveal_strlit("calendar-discover");
        },
        Label::Discovering => {
            reveal_strlit("discovering");
            reveal_strlit("calendar-discovering");
        },
        Label::DiscoverError => {
            reveal_strlit("discover-error");
            reveal_strlit("calendar-discover-error");
        },
        Label::SyncSettings => {
            reveal_strlit("sync-settings");
            reveal_strlit("calendar-sync-settings");
        },
        Label::SyncInterval => {
            reveal_strlit("sync-interval");
            reveal_strlit("calendar-sync-interval");
        },
        Label::UpcomingCount => {
            reveal_strlit("upcoming-count");
            reveal_strlit("calendar-upcoming-count");
        },
        Label::EncryptionMode => {
            reveal_strlit("encryption-mode");
            reveal_strlit("calendar-encryption-mode");
        },
        Label::EncryptionNone => {
            reveal_strlit("encryption-none");
            reveal_strlit("calendar-encryption-none");
        },
        Label::EncryptionAuto => {
            reveal_strlit("encryption-auto");
            reveal_strlit("calendar-encryption-auto");
        },
        Label::EncryptionManual => {
            reveal_strlit("encryption-manual");
            reveal_strlit("calendar-encryption-manual");
        },
    }
    assert(labels::label_key(label) =~= "calendar-"@ + own_part_of_id(label));
}

// ── Parameters ───────────────────────────────────────────────────────────

/// The value of a parameter is the last one that comes with its name, and there is none if its name
/// does not come.
pub proof fn last_parameter_counts(
    pairs: Seq<(Seq<char>, Seq<char>)>,
    name: Seq<char>,
    k: int,
)
    ensures
        0 <= k < pairs.len() && pairs[k].0 == name && (forall|j: int|
            k < j < pairs.len() ==> (#[trigger] pairs[j]).0 != name) ==> auth::parameter(
            pairs,
            name,
        ) == Some(pairs[k].1),
        (forall|j: int| 0 <= j < pairs.len() ==> (#[trigger] pairs[j]).0 != name)
            ==> auth::parameter(pairs, name) is None,
    decreases pairs.len(),
{
    if pairs.len() > 0 {
        let front = pairs.drop_last();
        last_parameter_counts(front, name, k);
        assert(pairs[pairs.len() - 1] == pairs.last());
        if 0 <= k < pairs.len() && pairs[k].0 == name && (forall|j: int|
            k < j < pairs.len() ==> (#[trigger] pairs[j]).0 != name) {
            if k < front.len() {
                assert(pairs.last().0 != name);
                assert forall|j: int| k < j < front.len() implies (#[trigger] front[j]).0
                    != name by {
                    assert(pairs[j] == front[j]);
                }
            }
        }
        if forall|j: int| 0 <= j < pairs.len() ==> (#[trigger] pairs[j]).0 != name {
            assert forall|j: int| 0 <= j < front.len() implies (#[trigger] front[j]).0 != name by {
                assert(pairs[j] == front[j]);
            }
        }
    }
}

} // verus!
