//! Paste identifiers: random ones for anonymous uploads, checked ones for
//! names that callers choose, and the file that each one names.
use vstd::prelude::*;
use vstd::string::StrSliceExecFns;
use vstd::string::StringExecFns;
use rand::Rng;

verus! {

/// The characters that generated identifiers are drawn from.
pub const BASE62: &'static str = "0123456789ABCDEFGHIJKLMNOPQRSTUVWXYZabcdefghijklmnopqrstuvwxyz";

/// The number of characters in `BASE62`.
pub const BASE62_LEN: usize = 62;

/// The longest name a caller may choose (a common file-name limit).
pub const MAX_NAME_LEN: usize = 255;

/// An ASCII digit or letter.
pub open spec fn is_alphanumeric(c: char) -> bool {
    ('0' <= c && c <= '9') || ('A' <= c && c <= 'Z') || ('a' <= c && c <= 'z')
}

/// A character allowed in a chosen name: none of them separates paths.
pub open spec fn is_name_char(c: char) -> bool {
    is_alphanumeric(c) || c == '.' || c == '-' || c == '_'
}

/// `.` and `..`, which name the storage directory or its parent.
pub open spec fn is_dot_name(s: Seq<char>) -> bool {
    s == seq!['.'] || s == seq!['.', '.']
}

/// Why a chosen name was refused, checked in this order.
#[derive(Clone, Copy, Debug, PartialEq, Eq, Structural)]
pub enum InvalidIdentifier {
    Empty,
    TooLong,
    DisallowedChar,
    DotName,
}

/// The reason `s` is refused as a name, or `None` when it is accepted.
pub open spec fn name_error(s: Seq<char>) -> Option<InvalidIdentifier> {
    if s.len() == 0 {
        Some(InvalidIdentifier::Empty)
    } else if s.len() > MAX_NAME_LEN {
        Some(InvalidIdentifier::TooLong)
    } else if exists|i: int| 0 <= i < s.len() && !is_name_char(#[trigger] s[i]) {
        Some(InvalidIdentifier::DisallowedChar)
    } else if is_dot_name(s) {
        Some(InvalidIdentifier::DotName)
    } else {
        None
    }
}

/// A name that maps to exactly one file directly inside the storage directory.
pub open spec fn valid_name(s: Seq<char>) -> bool {
    name_error(s) is None
}

/// The identifier that a sequence of draws selects, one character per draw.
pub open spec fn id_from_draws(draws: Seq<usize>) -> Seq<char> {
    Seq::new(draws.len(), |i: int| BASE62@[(draws[i] % BASE62_LEN) as int])
}

/// `name` placed under `base`, with one `/` between them.
pub open spec fn join(base: Seq<char>, name: Seq<char>) -> Seq<char> {
    if base.len() == 0 {
        name
    } else if base.last() == '/' {
        base + name
    } else {
        base + seq!['/'] + name
    }
}

/// `BASE62` holds 62 characters, each a digit or a letter.
proof fn lemma_base62()
    ensures
        BASE62@.len() == BASE62_LEN,
        forall|k: int| 0 <= k < BASE62_LEN ==> is_alphanumeric(#[trigger] BASE62@[k]),
{
    reveal_strlit("0123456789ABCDEFGHIJKLMNOPQRSTUVWXYZabcdefghijklmnopqrstuvwxyz");
}

/// The token that names a paste and its file.
#[derive(Debug)]
pub struct PasteId {
    id: String,
}

impl View for PasteId {
    type V = Seq<char>;

    closed spec fn view(&self) -> Seq<char> {
        self.id@
    }
}

/// Relies on rand's `thread_rng` and `Rng::gen_range`: a value drawn from `0..bound`.
#[verifier::external_body]
fn draw_below(bound: usize) -> (r: usize)
    requires
        bound > 0,
    ensures
        r < bound,
{
    rand::thread_rng().gen_range(0..bound)
}

impl PasteId {
    /// The identifier picked by `draws`: each draw, taken modulo 62, selects
    /// one character of `BASE62`.
    pub fn from_draws(draws: &Vec<usize>) -> (r: PasteId)
        ensures
            r@ == id_from_draws(draws@),
    {
        proof {
            lemma_base62();
        }
        let mut id = String::new();
        let mut i: usize = 0;
        while i < draws.len()
            invariant
                i <= draws@.len(),
                BASE62@.len() == BASE62_LEN,
                id@ == id_from_draws(draws@.subrange(0, i as int)),
            decreases draws@.len() - i,
        {
            let k = draws[i] % BASE62_LEN;
            let piece = BASE62.substring_char(k, k + 1);
            id.append(piece);
            i = i + 1;
            assert(id@ =~= id_from_draws(draws@.subrange(0, i as int)));
        }
        assert(draws@.subrange(0, i as int) =~= draws@);
        PasteId { id }
    }

    /// A fresh random identifier of `length` characters of `BASE62`. No state
    /// is kept between calls, and existing pastes are not consulted.
    pub fn new(length: usize) -> (r: PasteId)
        ensures
            r@.len() == length,
            forall|i: int| 0 <= i < length ==> is_alphanumeric(#[trigger] r@[i]),
            1 <= length <= MAX_NAME_LEN ==> valid_name(r@),
    {
        let mut draws: Vec<usize> = Vec::new();
        let mut i: usize = 0;
        while i < length
            invariant
                i <= length,
                draws@.len() == i,
            decreases length - i,
        {
            draws.push(draw_below(BASE62_LEN));
            i = i + 1;
        }
        let r = PasteId::from_draws(&draws);
        proof {
            lemma_base62();
            assert forall|i: int| 0 <= i < length implies is_alphanumeric(#[trigger] r@[i]) by {
                assert(r@[i] == BASE62@[(draws@[i] % BASE62_LEN) as int]);
            }
            if 1 <= length <= MAX_NAME_LEN {
                assert(r@.len() >= 1);
                assert(!(exists|i: int| 0 <= i < r@.len() && !is_name_char(#[trigger] r@[i])));
                assert(!is_dot_name(r@)) by {
                    if is_dot_name(r@) {
                        assert(r@[0] == '.');
                    }
                }
            }
        }
        r
    }
    /// Accepts `name` as an identifier only when it names a single file
    /// directly inside the storage directory; otherwise says why not.
    pub fn from_raw(name: &str) -> (r: Result<PasteId, InvalidIdentifier>)
        ensures
            match name_error(name@) {
                Some(e) => r == Err::<PasteId, InvalidIdentifier>(e),
                None => r matches Ok(id) && id@ == name@,
            },
    {
        let len = name.unicode_len();
        if len == 0 {
            return Err(InvalidIdentifier::Empty);
        }
        if len > MAX_NAME_LEN {
            return Err(InvalidIdentifier::TooLong);
        }
        let mut i: usize = 0;
        while i < len
            invariant
                i <= len,
                0 < len <= MAX_NAME_LEN,
                len == name@.len(),
                forall|j: int| 0 <= j < i ==> is_name_char(#[trigger] name@[j]),
            decreases len - i,
        {
            let c = name.get_char(i);
            if !(('0' <= c && c <= '9') || ('A' <= c && c <= 'Z') || ('a' <= c && c <= 'z')
                || c == '.' || c == '-' || c == '_') {
                assert(!is_name_char(name@[i as int]));
                return Err(InvalidIdentifier::DisallowedChar);
            }
            i = i + 1;
        }
        let dots = if len == 1 {
            name.get_char(0) == '.'
        } else if len == 2 {
            name.get_char(0) == '.' && name.get_char(1) == '.'
        } else {
            false
        };
        proof {
            if is_dot_name(name@) {
                assert(name@[0] == '.');
                assert(len == 2 ==> name@[1] == '.');
            }
            if dots {
                if len == 1 {
                    assert(name@ =~= seq!['.']);
                } else {
                    assert(name@ =~= seq!['.', '.']);
                }
            }
        }
        if dots {
            return Err(InvalidIdentifier::DotName);
        }
        Ok(PasteId { id: String::from_str(name) })
    }

    /// The identifier's text.
    pub fn as_str(&self) -> (r: &str)
        ensures
            r@ == self@,
    {
        self.id.as_str()
    }

    /// The file that holds this paste: the identifier joined to `root`.
    pub fn to_path(&self, root: &str) -> (r: String)
        ensures
            r@ == join(root@, self@),
    {
        let len = root.unicode_len();
        let mut path = String::from_str(root);
        if len > 0 && root.get_char(len - 1) != '/' {
            path.append("/");
            proof {
                reveal_strlit("/");
            }
        }
        path.append(self.id.as_str());
        proof {
            if len > 0 {
                assert(root@.last() == root@[len - 1]);
            }
        }
        path
    }
}

} // verus!
