//! Text services borrowed from std and from outside crates: pattern matching
//! with `regex`, trimming with `str::trim`, and the textual form of a UUID.
use vstd::prelude::*;

verus! {

/// What `regex::Regex::new(pattern)` followed by `is_match(text)` gives:
/// `None` when the pattern does not compile, else whether `text` matches.
pub uninterp spec fn regex_match(pattern: Seq<char>, text: Seq<char>) -> Option<bool>;

/// The pattern of a task key: three fields separated by ':'.
pub const TASK_KEY_PATTERN: &'static str = "^[^:]+:[^:]+:[^:]+$";

/// The pattern that selects all the tasks of one user: `user:*`.
pub const USER_TASKS_PATTERN: &'static str = "^[^:]+:\\*$";

/// `s` is made of three non-empty fields, none holding ':', joined by ':'.
pub open spec fn is_task_key(s: Seq<char>) -> bool {
    exists|i: int, j: int|
        0 < i && i + 1 < j && j + 1 < s.len() && s[i] == ':' && s[j] == ':' && (forall|k: int|
            0 <= k < s.len() && k != i && k != j ==> #[trigger] s[k] != ':')
}

/// `s` is a non-empty field without ':' followed by ":*".
pub open spec fn is_user_tasks_pattern(s: Seq<char>) -> bool {
    &&& s.len() >= 3
    &&& s[s.len() - 1] == '*'
    &&& s[s.len() - 2] == ':'
    &&& forall|k: int| 0 <= k < s.len() - 2 ==> #[trigger] s[k] != ':'
}

/// Compiles `pattern` with `regex::Regex::new` and runs `Regex::is_match` on
/// `text`. The result is named by `regex_match`; for the two patterns of this
/// library the contract also says what a match means, as the regex syntax
/// documents it: `^`/`$` anchor at the ends of the text, `[^:]+` is one or
/// more characters other than ':', `\*` is a literal '*'.
#[verifier::external_body]
pub(crate) fn regex_is_match(pattern: &str, text: &str) -> (r: Option<bool>)
    ensures
        r == regex_match(pattern@, text@),
        pattern@ == TASK_KEY_PATTERN@ ==> r == Some(is_task_key(text@)),
        pattern@ == USER_TASKS_PATTERN@ ==> r == Some(is_user_tasks_pattern(text@)),
{
    match regex::Regex::new(pattern) {
        Ok(re) => Some(re.is_match(text)),
        Err(_) => None,
    }
}

/// Whether `c` is white space in the sense of the Unicode property
/// `White_Space`, which is what `char::is_whitespace` reports and what
/// `str::trim` strips: U+0009..U+000D, U+0020, U+0085, U+00A0, U+1680,
/// U+2000..U+200A, U+2028, U+2029, U+202F, U+205F and U+3000.
pub open spec fn is_white_space(c: char) -> bool {
    let n = c as int;
    ||| 0x09 <= n <= 0x0d
    ||| n == 0x20
    ||| n == 0x85
    ||| n == 0xa0
    ||| n == 0x1680
    ||| 0x2000 <= n <= 0x200a
    ||| n == 0x2028
    ||| n == 0x2029
    ||| n == 0x202f
    ||| n == 0x205f
    ||| n == 0x3000
}

/// `s` without its leading white space.
pub open spec fn trim_start(s: Seq<char>) -> Seq<char>
    decreases s.len(),
{
    if s.len() > 0 && is_white_space(s[0]) {
        trim_start(s.drop_first())
    } else {
        s
    }
}

/// `s` without its trailing white space.
pub open spec fn trim_end(s: Seq<char>) -> Seq<char>
    decreases s.len(),
{
    if s.len() > 0 && is_white_space(s.last()) {
        trim_end(s.drop_last())
    } else {
        s
    }
}

/// `s` without its leading and trailing white space.
pub open spec fn trimmed(s: Seq<char>) -> Seq<char> {
    trim_end(trim_start(s))
}

/// Calls `str::trim`, which returns the slice of `s` with leading and
/// trailing white space removed, white space being the Unicode property
/// `White_Space` (`is_white_space`).
#[verifier::external_body]
pub(crate) fn trim(s: &str) -> (r: &str)
    ensures
        r@ == trimmed(s@),
        r@.len() > 0 ==> !is_white_space(r@[0]) && !is_white_space(r@.last()),
{
    s.trim()
}

/// The lower-case hexadecimal digit of `n`, for `0 <= n < 16`.
pub open spec fn hex_digit(n: int) -> char {
    seq!['0', '1', '2', '3', '4', '5', '6', '7', '8', '9', 'a', 'b', 'c', 'd', 'e', 'f'][n]
}

/// The `d`-th hexadecimal digit of `id`, counted from the most significant
/// of its 32 digits.
pub open spec fn uuid_nibble(id: u128, d: int) -> int {
    (id as int / vstd::arithmetic::power::pow(16, (31 - d) as nat)) % 16
}

/// The positions of the four hyphens of a hyphenated UUID.
pub open spec fn is_uuid_hyphen(i: int) -> bool {
    i == 8 || i == 13 || i == 18 || i == 23
}

/// The digit that stands at character position `i` of a hyphenated UUID.
pub open spec fn uuid_digit_index(i: int) -> int {
    if i < 8 {
        i
    } else if i < 13 {
        i - 1
    } else if i < 18 {
        i - 2
    } else if i < 23 {
        i - 3
    } else {
        i - 4
    }
}

/// The hyphenated lower-case form of a UUID, `xxxxxxxx-xxxx-xxxx-xxxx-xxxxxxxxxxxx`,
/// its 32 digits taken from the most significant down.
pub open spec fn uuid_hyphenated(id: u128) -> Seq<char> {
    Seq::new(
        36,
        |i: int|
            if is_uuid_hyphen(i) {
                '-'
            } else {
                hex_digit(uuid_nibble(id, uuid_digit_index(i)))
            },
    )
}

/// Formats the UUID `id` with `uuid::Uuid`'s `Display`, which its
/// documentation and source give as the hyphenated lower-case form.
#[verifier::external_body]
pub(crate) fn uuid_text(id: u128) -> (r: String)
    ensures
        r@ == uuid_hyphenated(id),
{
    uuid::Uuid::from_u128(id).to_string()
}

/// No character of a hyphenated UUID is ':'.
pub proof fn lemma_uuid_has_no_colon(id: u128)
    ensures
        uuid_hyphenated(id).len() == 36,
        !uuid_hyphenated(id).contains(':'),
{
    let u = uuid_hyphenated(id);
    assert forall|i: int| 0 <= i < u.len() implies u[i] != ':' by {
        if !is_uuid_hyphen(i) {
            let n = uuid_nibble(id, uuid_digit_index(i));
            assert(0 <= n < 16);
            let digits = seq!['0', '1', '2', '3', '4', '5', '6', '7', '8', '9', 'a', 'b', 'c', 'd', 'e', 'f'];
            assert(forall|m: int| 0 <= m < 16 ==> digits[m] != ':');
        }
    }
}

} // verus!
