//! The day folders of a kata: how they are named, which number the next one
//! gets, and which one is the most recent.

use vstd::prelude::*;
use crate::text::{chars_of, contains_text, texts_of};

verus! {

/// The character for a digit.
pub open spec fn digit(d: nat) -> char {
    if d == 0 {
        '0'
    } else if d == 1 {
        '1'
    } else if d == 2 {
        '2'
    } else if d == 3 {
        '3'
    } else if d == 4 {
        '4'
    } else if d == 5 {
        '5'
    } else if d == 6 {
        '6'
    } else if d == 7 {
        '7'
    } else if d == 8 {
        '8'
    } else {
        '9'
    }
}

/// A number in decimal, without leading zeros.
pub open spec fn decimal(n: nat) -> Seq<char>
    decreases n,
{
    if n < 10 {
        seq![digit(n)]
    } else {
        decimal(n / 10).push(digit(n % 10))
    }
}

/// The name of the day folder with the given number.
pub open spec fn day_name(n: nat) -> Seq<char> {
    "day"@ + decimal(n)
}

/// A directory and the name of an entry in it, as one path.
pub open spec fn joined(dir: Seq<char>, name: Seq<char>) -> Seq<char> {
    dir + "/"@ + name
}

/// A number in decimal has at least one digit.
pub proof fn lemma_decimal_is_not_empty(n: nat)
    ensures
        decimal(n).len() >= 1,
        n >= 10 ==> decimal(n).len() >= 2,
    decreases n,
{
    if n >= 10 {
        lemma_decimal_is_not_empty(n / 10);
    }
}

/// Different numbers are written differently.
pub proof fn lemma_decimal_is_injective(a: nat, b: nat)
    requires
        decimal(a) == decimal(b),
    ensures
        a == b,
    decreases a,
{
    lemma_decimal_is_not_empty(a);
    lemma_decimal_is_not_empty(b);
    if a < 10 && b < 10 {
        assert(decimal(a)[0] == digit(a));
    } else if a >= 10 && b >= 10 {
        let x = decimal(a / 10);
        let y = decimal(b / 10);
        assert(decimal(a).drop_last() =~= x);
        assert(decimal(b).drop_last() =~= y);
        assert(decimal(a).last() == digit(a % 10));
        lemma_decimal_is_injective(a / 10, b / 10);
    }
}

/// Different numbers name different day folders.
pub proof fn lemma_day_name_is_injective(a: nat, b: nat)
    requires
        day_name(a) == day_name(b),
    ensures
        a == b,
{
    let prefix = "day"@;
    assert(day_name(a).subrange(prefix.len() as int, day_name(a).len() as int) =~= decimal(a));
    assert(day_name(b).subrange(prefix.len() as int, day_name(b).len() as int) =~= decimal(b));
    lemma_decimal_is_injective(a, b);
}

/// The text of one digit.
fn digit_text(d: u64) -> (r: &'static str)
    requires
        d < 10,
    ensures
        r@ == seq![digit(d as nat)],
{
    proof {
        reveal_strlit("0");
        reveal_strlit("1");
        reveal_strlit("2");
        reveal_strlit("3");
        reveal_strlit("4");
        reveal_strlit("5");
        reveal_strlit("6");
        reveal_strlit("7");
        reveal_strlit("8");
        reveal_strlit("9");
    }
    let r = if d == 0 {
        "0"
    } else if d == 1 {
        "1"
    } else if d == 2 {
        "2"
    } else if d == 3 {
        "3"
    } else if d == 4 {
        "4"
    } else if d == 5 {
        "5"
    } else if d == 6 {
        "6"
    } else if d == 7 {
        "7"
    } else if d == 8 {
        "8"
    } else {
        "9"
    };
    r
}

/// Writes a number in decimal at the end of a text.
fn push_decimal(text: &mut String, n: u64)
    ensures
        final(text)@ == old(text)@ + decimal(n as nat),
    decreases n,
{
    if n >= 10 {
        push_decimal(text, n / 10);
    }
    text.append(digit_text(n % 10));
}

/// The name of the day folder with the given number.
pub fn day_folder_name(n: u64) -> (r: String)
    ensures
        r@ == day_name(n as nat),
{
    let mut r = "day".to_owned();
    push_decimal(&mut r, n);
    r
}

/// A directory and the name of an entry in it, as one path.
pub fn join(dir: &str, name: &str) -> (r: String)
    ensures
        r@ == joined(dir@, name@),
{
    let mut r = dir.to_owned();
    r.append("/");
    r.append(name);
    r
}

/// Whether the day folder with the given number is among the names.
pub open spec fn is_taken(names: Seq<Seq<char>>, n: nat) -> bool {
    names.contains(day_name(n))
}

/// Whether `n` is the number of the next day folder: the lowest number from 1
/// on whose folder is not among the names.
pub open spec fn is_next_day(names: Seq<Seq<char>>, n: nat) -> bool {
    &&& n >= 1
    &&& !is_taken(names, n)
    &&& forall|k: nat| 1 <= k < n ==> #[trigger] is_taken(names, k)
}

/// The number of the next day folder.
pub open spec fn next_day(names: Seq<Seq<char>>) -> nat {
    choose|n: nat| is_next_day(names, n)
}

/// The names of the day folders with the numbers from 1 to `n`.
pub open spec fn first_days(n: nat) -> Set<Seq<char>>
    decreases n,
{
    if n == 0 {
        Set::empty()
    } else {
        first_days((n - 1) as nat).insert(day_name(n))
    }
}

/// `first_days(n)` holds the names of the days 1 to `n`, each once.
pub proof fn lemma_first_days(n: nat)
    ensures
        first_days(n).finite(),
        first_days(n).len() == n,
        forall|name: Seq<char>|
            first_days(n).contains(name) <==> exists|k: nat|
                1 <= k <= n && name == #[trigger] day_name(k),
    decreases n,
{
    if n > 0 {
        let m = (n - 1) as nat;
        lemma_first_days(m);
        if first_days(m).contains(day_name(n)) {
            let k = choose|k: nat| 1 <= k <= m && day_name(n) == #[trigger] day_name(k);
            lemma_day_name_is_injective(n, k);
        }
    }
}

/// Names that hold the day folders 1 to `n` are at least `n` names.
pub proof fn lemma_days_need_room(names: Seq<Seq<char>>, n: nat)
    requires
        forall|k: nat| 1 <= k <= n ==> #[trigger] is_taken(names, k),
    ensures
        n <= names.len(),
{
    lemma_first_days(n);
    assert forall|name: Seq<char>| first_days(n).contains(name) implies names.to_set().contains(
        name,
    ) by {
        let k = choose|k: nat| 1 <= k <= n && name == #[trigger] day_name(k);
        assert(is_taken(names, k));
    }
    names.lemma_cardinality_of_set();
    vstd::set_lib::lemma_len_subset(first_days(n), names.to_set());
}

/// Only one number is the number of the next day folder.
pub proof fn lemma_next_day_is_unique(names: Seq<Seq<char>>, n: nat, m: nat)
    requires
        is_next_day(names, n),
        is_next_day(names, m),
    ensures
        n == m,
{
    if n < m {
        assert(is_taken(names, n));
    }
    if m < n {
        assert(is_taken(names, m));
    }
}

/// The number of the next day folder: the lowest number from 1 on whose
/// folder is not among `existing`, the names of what the kata's directory holds.
pub fn next_day_number(existing: &Vec<String>) -> (r: u64)
    requires
        existing@.len() < u64::MAX,
    ensures
        is_next_day(texts_of(existing@), r as nat),
        r as nat == next_day(texts_of(existing@)),
        r <= existing@.len() + 1,
{
    let ghost names = texts_of(existing@);
    let mut n: u64 = 1;
    loop
        invariant
            names == texts_of(existing@),
            existing@.len() < u64::MAX,
            1 <= n <= existing@.len() + 1,
            forall|k: nat| 1 <= k < n ==> #[trigger] is_taken(names, k),
        decreases existing@.len() + 1 - n,
    {
        let name = day_folder_name(n);
        if !contains_text(existing, name.as_str()) {
            proof {
                lemma_next_day_is_unique(names, n as nat, next_day(names));
            }
            return n;
        }
        proof {
            lemma_days_need_room(names, n as nat);
        }
        n += 1;
    }
}

/// The path of the next day folder in `kata_dir`, given the names of what
/// that directory holds.
pub fn find_next_day_folder(kata_dir: &str, existing: &Vec<String>) -> (r: String)
    requires
        existing@.len() < u64::MAX,
    ensures
        r@ == joined(kata_dir@, day_name(next_day(texts_of(existing@)))),
        is_next_day(texts_of(existing@), next_day(texts_of(existing@))),
{
    let n = next_day_number(existing);
    let name = day_folder_name(n);
    join(kata_dir, name.as_str())
}

/// The names in a kata's directory after `count` more day folders have been
/// made in it, each with the number that was next at its time.
pub open spec fn after_generations(names: Seq<Seq<char>>, count: nat) -> Seq<Seq<char>>
    decreases count,
{
    if count == 0 {
        names
    } else {
        let before = after_generations(names, (count - 1) as nat);
        before.push(day_name(next_day(before)))
    }
}

/// The names of the day folders 1 to `count`, in that order.
pub open spec fn days_up_to(count: nat) -> Seq<Seq<char>> {
    Seq::new(count, |i: int| day_name((i + 1) as nat))
}

/// In a directory that holds no day folder, the folders that `count`
/// generations make are numbered 1 to `count`, in that order, with no number
/// left out and none used twice.
pub proof fn lemma_generations_count_up(names: Seq<Seq<char>>, count: nat)
    requires
        forall|k: nat| k >= 1 ==> !#[trigger] is_taken(names, k),
    ensures
        after_generations(names, count) == names + days_up_to(count),
        is_next_day(after_generations(names, count), count + 1),
        next_day(after_generations(names, count)) == count + 1,
    decreases count,
{
    let now = after_generations(names, count);
    if count > 0 {
        let earlier = (count - 1) as nat;
        let before = after_generations(names, earlier);
        lemma_generations_count_up(names, earlier);
        assert(now == before.push(day_name(count)));
    }
    assert forall|k: nat| 1 <= k < count + 1 implies #[trigger] is_taken(now, k) by {
        assert(now[names.len() + k - 1] == day_name(k));
    }
    if is_taken(now, count + 1) {
        let i = choose|i: int| 0 <= i < now.len() && now[i] == day_name(count + 1);
        if i < names.len() {
            assert(is_taken(names, count + 1));
        } else {
            lemma_day_name_is_injective(count + 1, (i - names.len() + 1) as nat);
        }
    }
    lemma_next_day_is_unique(now, count + 1, next_day(now));
}

/// The next day folder gets the lowest number that is free, also where
/// folders with higher numbers exist: a folder that was removed is made again
/// before any new number is used.
pub proof fn lemma_lowest_free_number_is_next(names: Seq<Seq<char>>, free: nat)
    requires
        free >= 1,
        !is_taken(names, free),
    ensures
        is_next_day(names, next_day(names)),
        next_day(names) <= free,
        (forall|k: nat| 1 <= k < free ==> #[trigger] is_taken(names, k)) ==> next_day(names)
            == free,
    decreases free,
{
    if forall|k: nat| 1 <= k < free ==> #[trigger] is_taken(names, k) {
        assert(is_next_day(names, free));
        lemma_next_day_is_unique(names, free, next_day(names));
    } else {
        let k = choose|k: nat| 1 <= k < free && !#[trigger] is_taken(names, k);
        lemma_lowest_free_number_is_next(names, k);
    }
}

/// Whatever the names are, one number is the next: at most one more than
/// there are names.
pub proof fn lemma_next_day_exists(names: Seq<Seq<char>>)
    ensures
        is_next_day(names, next_day(names)),
        next_day(names) <= names.len() + 1,
{
    let most = names.len() + 1;
    if forall|k: nat| 1 <= k <= most ==> #[trigger] is_taken(names, k) {
        lemma_days_need_room(names, most);
    }
    let free = choose|k: nat| 1 <= k <= most && !#[trigger] is_taken(names, k);
    lemma_lowest_free_number_is_next(names, free);
}

/// Whether a name is that of a day folder: `day` and a number from 1 on, in
/// decimal without leading zeros.
pub open spec fn is_day_folder(name: Seq<char>) -> bool {
    exists|n: nat| n >= 1 && name == day_name(n)
}

/// Whether a character is a decimal digit.
pub open spec fn is_digit(c: char) -> bool {
    c == '0' || c == '1' || c == '2' || c == '3' || c == '4' || c == '5' || c == '6' || c == '7'
        || c == '8' || c == '9'
}

/// The digit that a character stands for.
pub open spec fn digit_value(c: char) -> nat {
    if c == '1' {
        1
    } else if c == '2' {
        2
    } else if c == '3' {
        3
    } else if c == '4' {
        4
    } else if c == '5' {
        5
    } else if c == '6' {
        6
    } else if c == '7' {
        7
    } else if c == '8' {
        8
    } else if c == '9' {
        9
    } else {
        0
    }
}

/// The number that a run of digits stands for.
pub open spec fn number_of(digits: Seq<char>) -> nat
    decreases digits.len(),
{
    if digits.len() == 0 {
        0
    } else {
        number_of(digits.drop_last()) * 10 + digit_value(digits.last())
    }
}

/// Whether a run of characters is a number from 1 on as `decimal` writes it:
/// digits only, at least one, the first of them not a zero.
pub open spec fn is_positive_decimal(digits: Seq<char>) -> bool {
    &&& digits.len() >= 1
    &&& digits[0] != '0'
    &&& forall|i: int| 0 <= i < digits.len() ==> is_digit(#[trigger] digits[i])
}

/// Whether a name has the shape of a day folder's: `day`, then a number from
/// 1 on as `decimal` writes it.
pub open spec fn has_day_shape(name: Seq<char>) -> bool {
    &&& name.len() >= 4
    &&& name[0] == 'd'
    &&& name[1] == 'a'
    &&& name[2] == 'y'
    &&& is_positive_decimal(name.subrange(3, name.len() as int))
}

/// A number from 1 on is written in digits, the first of them not a zero.
pub proof fn lemma_decimal_is_positive_decimal(n: nat)
    requires
        n >= 1,
    ensures
        is_positive_decimal(decimal(n)),
    decreases n,
{
    if n >= 10 {
        lemma_decimal_is_positive_decimal(n / 10);
        let front = decimal(n / 10);
        assert forall|i: int| 0 <= i < decimal(n).len() implies is_digit(
            #[trigger] decimal(n)[i],
        ) by {
            if i < front.len() {
                assert(decimal(n)[i] == front[i]);
            }
        }
        assert(decimal(n)[0] == front[0]);
    }
}

/// A run of digits that does not start with a zero is how `decimal` writes
/// the number it stands for.
pub proof fn lemma_number_is_written_as_read(digits: Seq<char>)
    requires
        is_positive_decimal(digits),
    ensures
        number_of(digits) >= 1,
        decimal(number_of(digits)) == digits,
    decreases digits.len(),
{
    let last = digits.last();
    assert(is_digit(digits[digits.len() - 1]));
    assert(digit(digit_value(last)) == last);
    if digits.len() == 1 {
        assert(digits.drop_last().len() == 0);
        assert(number_of(digits.drop_last()) == 0);
        assert(digits[0] == last);
        assert(decimal(number_of(digits)) =~= digits);
    } else {
        let front = digits.drop_last();
        assert(front[0] == digits[0]);
        assert forall|i: int| 0 <= i < front.len() implies is_digit(#[trigger] front[i]) by {
            assert(front[i] == digits[i]);
        }
        lemma_number_is_written_as_read(front);
        let n = number_of(digits);
        assert(n == number_of(front) * 10 + digit_value(last));
        assert(n / 10 == number_of(front));
        assert(n % 10 == digit_value(last));
        assert(decimal(n) =~= front.push(last));
        assert(front.push(last) =~= digits);
    }
}

/// A name is that of a day folder exactly where it has the shape of one.
pub proof fn lemma_day_folders_have_day_shape(name: Seq<char>)
    ensures
        is_day_folder(name) <==> has_day_shape(name),
{
    reveal_strlit("day");
    let prefix = "day"@;
    assert(prefix.len() == 3);
    if is_day_folder(name) {
        let n = choose|n: nat| n >= 1 && name == day_name(n);
        lemma_decimal_is_positive_decimal(n);
        assert(name.subrange(3, name.len() as int) =~= decimal(n));
        assert(name[0] == prefix[0] && name[1] == prefix[1] && name[2] == prefix[2]);
    }
    if has_day_shape(name) {
        let digits = name.subrange(3, name.len() as int);
        lemma_number_is_written_as_read(digits);
        let n = number_of(digits);
        assert(name =~= day_name(n));
    }
}

/// Whether `a` stands before `b`, or is `b`, in the order of a dictionary that
/// goes by the characters' code points, looking only from position `from` on.
pub open spec fn precedes_from(a: Seq<char>, b: Seq<char>, from: int) -> bool
    decreases a.len() - from,
{
    if from < 0 || from >= a.len() {
        true
    } else if from >= b.len() {
        false
    } else if a[from] != b[from] {
        (a[from] as u32) < (b[from] as u32)
    } else {
        precedes_from(a, b, from + 1)
    }
}

/// Whether `a` stands before `b`, or is `b`, in the order of a dictionary that
/// goes by the characters' code points. This is the order of the texts' UTF-8
/// bytes.
pub open spec fn precedes(a: Seq<char>, b: Seq<char>) -> bool {
    precedes_from(a, b, 0)
}

/// Of two texts, one precedes the other.
pub proof fn lemma_precedes_is_total(a: Seq<char>, b: Seq<char>, from: int)
    requires
        0 <= from,
    ensures
        precedes_from(a, b, from) || precedes_from(b, a, from),
    decreases a.len() - from,
{
    if from < a.len() && from < b.len() {
        if a[from] == b[from] {
            lemma_precedes_is_total(a, b, from + 1);
        } else {
            vstd::utf8::char_u32_cast(a[from], a[from] as u32);
            vstd::utf8::char_u32_cast(b[from], b[from] as u32);
        }
    }
}

/// What precedes a text precedes all that the text precedes.
pub proof fn lemma_precedes_is_transitive(a: Seq<char>, b: Seq<char>, c: Seq<char>, from: int)
    requires
        0 <= from,
        precedes_from(a, b, from),
        precedes_from(b, c, from),
    ensures
        precedes_from(a, c, from),
    decreases a.len() - from,
{
    if from < a.len() {
        if a[from] == b[from] && b[from] == c[from] {
            lemma_precedes_is_transitive(a, b, c, from + 1);
        }
    }
}

/// Two texts that agree up to `from` and precede each other are equal.
pub proof fn lemma_precedes_is_antisymmetric(a: Seq<char>, b: Seq<char>, from: int)
    requires
        0 <= from <= a.len(),
        from <= b.len(),
        a.subrange(0, from) == b.subrange(0, from),
        precedes_from(a, b, from),
        precedes_from(b, a, from),
    ensures
        a == b,
    decreases a.len() - from,
{
    if from < a.len() {
        assert(a.subrange(0, from + 1) =~= a.subrange(0, from).push(a[from]));
        assert(b.subrange(0, from + 1) =~= b.subrange(0, from).push(b[from]));
        lemma_precedes_is_antisymmetric(a, b, from + 1);
    } else {
        assert(a =~= a.subrange(0, from));
    }
}

/// Whether `name` is the most recent day folder among the names: a day
/// folder that every day folder among them precedes.
pub open spec fn is_most_recent(names: Seq<Seq<char>>, name: Seq<char>) -> bool {
    &&& names.contains(name)
    &&& is_day_folder(name)
    &&& forall|i: int|
        0 <= i < names.len() && is_day_folder(#[trigger] names[i]) ==> precedes(names[i], name)
}

/// The name of the most recent day folder among the names, `None` where
/// none of them is a day folder.
pub open spec fn most_recent_name(names: Seq<Seq<char>>) -> Option<Seq<char>> {
    if exists|name: Seq<char>| is_most_recent(names, name) {
        Some(choose|name: Seq<char>| is_most_recent(names, name))
    } else {
        None
    }
}

/// Only one name is that of the most recent day folder.
pub proof fn lemma_most_recent_is_unique(names: Seq<Seq<char>>, a: Seq<char>, b: Seq<char>)
    requires
        is_most_recent(names, a),
        is_most_recent(names, b),
    ensures
        a == b,
{
    let i = choose|i: int| 0 <= i < names.len() && names[i] == a;
    let j = choose|j: int| 0 <= j < names.len() && names[j] == b;
    assert(precedes(names[i], b));
    assert(precedes(names[j], a));
    assert(a.subrange(0, 0) =~= b.subrange(0, 0));
    lemma_precedes_is_antisymmetric(a, b, 0);
}

/// Whether a character is a decimal digit.
fn is_digit_char(c: char) -> (r: bool)
    ensures
        r == is_digit(c),
{
    c == '0' || c == '1' || c == '2' || c == '3' || c == '4' || c == '5' || c == '6' || c == '7'
        || c == '8' || c == '9'
}

/// Whether a name is that of a day folder.
pub fn names_day_folder(name: &Vec<char>) -> (r: bool)
    ensures
        r == is_day_folder(name@),
{
    proof {
        lemma_day_folders_have_day_shape(name@);
    }
    if !(name.len() >= 4 && name[0] == 'd' && name[1] == 'a' && name[2] == 'y' && name[3] != '0') {
        assert(name@.len() >= 4 ==> name@.subrange(3, name@.len() as int)[0] == name@[3]);
        return false;
    }
    let ghost digits = name@.subrange(3, name@.len() as int);
    let mut i: usize = 3;
    while i < name.len()
        invariant
            3 <= i <= name.len(),
            digits == name@.subrange(3, name@.len() as int),
            forall|j: int| 0 <= j < i - 3 ==> is_digit(#[trigger] digits[j]),
        decreases name.len() - i,
    {
        if !is_digit_char(name[i]) {
            proof {
                lemma_day_folders_have_day_shape(name@);
                assert(!is_digit(digits[i - 3]));
            }
            return false;
        }
        assert(digits[i - 3] == name@[i as int]);
        i += 1;
    }
    assert(digits[0] == name@[3]);
    true
}

/// Whether `a` stands before `b`, or is `b`, in the order of a dictionary.
fn stands_before(a: &Vec<char>, b: &Vec<char>) -> (r: bool)
    ensures
        r == precedes(a@, b@),
{
    let mut i: usize = 0;
    while i < a.len()
        invariant
            i <= a.len(),
            precedes(a@, b@) == precedes_from(a@, b@, i as int),
        decreases a.len() - i,
    {
        if i >= b.len() {
            return false;
        }
        if a[i] != b[i] {
            return (a[i] as u32) < (b[i] as u32);
        }
        i += 1;
    }
    true
}

/// Where the most recent day folder stands among `folders`, the names of the
/// directories in a kata's directory; `None` where none of them is a day folder.
pub fn most_recent_day(folders: &Vec<String>) -> (r: Option<usize>)
    ensures
        match r {
            Some(at) => at < folders@.len() && most_recent_name(texts_of(folders@)) == Some(
                texts_of(folders@)[at as int],
            ),
            None => most_recent_name(texts_of(folders@)) is None,
        },
        most_recent_name(texts_of(folders@)) is Some <==> exists|i: int|
            0 <= i < folders@.len() && is_day_folder(#[trigger] texts_of(folders@)[i]),
        most_recent_name(texts_of(folders@)) matches Some(name) ==> is_most_recent(
            texts_of(folders@),
            name,
        ),
{
    let ghost names = texts_of(folders@);
    let mut best: Option<usize> = None;
    let mut best_chars: Vec<char> = Vec::new();
    let mut i: usize = 0;
    while i < folders.len()
        invariant
            i <= folders.len(),
            names == texts_of(folders@),
            match best {
                Some(at) => {
                    &&& at < i
                    &&& best_chars@ == names[at as int]
                    &&& is_day_folder(names[at as int])
                    &&& forall|j: int|
                        0 <= j < i && is_day_folder(#[trigger] names[j]) ==> precedes(
                            names[j],
                            names[at as int],
                        )
                },
                None => forall|j: int| 0 <= j < i ==> !is_day_folder(#[trigger] names[j]),
            },
        decreases folders.len() - i,
    {
        let chars = chars_of(folders[i].as_str());
        if names_day_folder(&chars) {
            let newer = match best {
                Some(_) => stands_before(&best_chars, &chars),
                None => true,
            };
            proof {
                lemma_precedes_is_total(chars@, chars@, 0);
                if let Some(at) = best {
                    if newer {
                        assert forall|j: int|
                            0 <= j < i + 1 && is_day_folder(#[trigger] names[j]) implies precedes(
                            names[j],
                            chars@,
                        ) by {
                            if j < i {
                                lemma_precedes_is_transitive(names[j], names[at as int], chars@, 0);
                            }
                        }
                    } else {
                        lemma_precedes_is_total(chars@, names[at as int], 0);
                    }
                }
            }
            if newer {
                best = Some(i);
                best_chars = chars;
            }
        }
        i += 1;
    }
    proof {
        match best {
            Some(at) => {
                assert(is_most_recent(names, names[at as int]));
                lemma_most_recent_is_unique(names, names[at as int], most_recent_name(names)->0);
            },
            None => {
                if most_recent_name(names) is Some {
                    let name = choose|name: Seq<char>| is_most_recent(names, name);
                    let j = choose|j: int| 0 <= j < names.len() && names[j] == name;
                    assert(!is_day_folder(names[j]));
                }
            },
        }
    }
    best
}

/// The path of the most recent day folder in `kata_dir`, given the names of
/// the directories in it; `None` where none of them is a day folder.
pub fn find_most_recent_day_folder(kata_dir: &str, folders: &Vec<String>) -> (r: Option<String>)
    ensures
        match most_recent_name(texts_of(folders@)) {
            Some(name) => r matches Some(path) && path@ == joined(kata_dir@, name),
            None => r is None,
        },
{
    match most_recent_day(folders) {
        Some(at) => Some(join(kata_dir, folders[at].as_str())),
        None => None,
    }
}

} // verus!
