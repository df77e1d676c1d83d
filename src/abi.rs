use vstd::prelude::*;

verus! {

/// The callable surface of a contract: the names of the functions its ABI
/// declares.
pub struct ContractInterface {
    pub functions: Vec<String>,
}

impl View for ContractInterface {
    type V = Seq<Seq<char>>;

    open spec fn view(&self) -> Seq<Seq<char>> {
        self.functions@.map_values(|s: String| s@)
    }
}

impl ContractInterface {
    /// An interface that declares no function.
    pub fn empty() -> (r: Self)
        ensures
            r@ == Seq::<Seq<char>>::empty(),
    {
        let r = ContractInterface { functions: Vec::new() };
        assert(r@ =~= Seq::<Seq<char>>::empty());
        r
    }

    /// Whether the interface declares a function of this name.
    pub fn has_function(&self, name: &str) -> (r: bool)
        ensures
            r == self@.contains(name@),
    {
        let wanted = name.to_owned();
        let mut i: usize = 0;
        while i < self.functions.len()
            invariant
                0 <= i <= self.functions@.len(),
                wanted@ == name@,
                forall|j: int| 0 <= j < i ==> self@[j] != name@,
            decreases self.functions.len() - i,
        {
            if self.functions[i] == wanted {
                assert(self@[i as int] == name@);
                return true;
            }
            i = i + 1;
        }
        false
    }
}

/// The longest stretch of ABI text accepted between two double quotes. It
/// bounds the length of every string in the text, type strings included.
pub const MAX_UNQUOTED_RUN: usize = 256;

pub open spec fn is_ascii_digit(b: u8) -> bool {
    48 <= b && b <= 57
}

/// The byte before position `i` ends a `[` followed by digits only.
pub open spec fn closes_array_group(abi: Seq<u8>, i: int) -> bool {
    exists|j: int|
        0 <= j < i && abi[j] == 91u8 && (forall|k: int| j < k < i ==> is_ascii_digit(#[trigger] abi[k]))
}

/// Whether position `i` lies inside a string: an odd number of double
/// quotes comes before it. With no escapes in the text, every double quote
/// opens or closes a string.
pub open spec fn inside_string(abi: Seq<u8>, i: int) -> bool
    decreases i,
{
    if i <= 0 {
        false
    } else {
        inside_string(abi, i - 1) != (abi[i - 1] == 34u8)
    }
}

/// Byte `i` is ASCII, is no backslash (so the text holds no escapes), and,
/// where it is a `]` inside a string, it closes a `[`, `[N]` array suffix.
pub open spec fn byte_admissible(abi: Seq<u8>, i: int) -> bool {
    &&& abi[i] < 128
    &&& abi[i] != 92u8
    &&& abi[i] == 93u8 && inside_string(abi, i) ==> closes_array_group(abi, i)
}

pub open spec fn quote_within(abi: Seq<u8>, a: int, b: int) -> bool {
    exists|k: int| a <= k < b && abi[k] == 34u8
}

/// The ABI text that the client hands to the ABI parser: ASCII without
/// escapes, every `]` in a string closing an array suffix, and no string longer than
/// `MAX_UNQUOTED_RUN`. Other text is refused before parsing, since the
/// parser reads parameter type strings by character count and slices them
/// by byte offset.
pub open spec fn abi_text_admissible(abi: Seq<u8>) -> bool {
    &&& forall|i: int| 0 <= i < abi.len() ==> byte_admissible(abi, i)
    &&& forall|a: int, b: int|
        0 <= a <= b <= abi.len() && b - a > MAX_UNQUOTED_RUN as int ==> quote_within(abi, a, b)
}

proof fn lemma_group_step(abi: Seq<u8>, i: int)
    requires
        0 <= i < abi.len(),
    ensures
        closes_array_group(abi, i + 1) == (abi[i] == 91u8 || (is_ascii_digit(abi[i]) && closes_array_group(abi, i))),
{
    if abi[i] == 91u8 {
        assert(forall|k: int| i < k < i + 1 ==> is_ascii_digit(#[trigger] abi[k]));
    } else if is_ascii_digit(abi[i]) && closes_array_group(abi, i) {
        let j = choose|j: int|
            0 <= j < i && abi[j] == 91u8 && (forall|k: int| j < k < i ==> is_ascii_digit(#[trigger] abi[k]));
        assert(forall|k: int| j < k < i + 1 ==> is_ascii_digit(#[trigger] abi[k]));
    } else if closes_array_group(abi, i + 1) {
        let j = choose|j: int|
            0 <= j < i + 1 && abi[j] == 91u8 && (forall|k: int| j < k < i + 1 ==> is_ascii_digit(#[trigger] abi[k]));
        assert(j < i);
        assert(is_ascii_digit(abi[i]));
        assert(forall|k: int| j < k < i ==> is_ascii_digit(#[trigger] abi[k]));
        assert(closes_array_group(abi, i));
    }
}

/// Whether the ABI text is of the form that the client parses.
pub fn is_admissible_abi_text(abi: &[u8]) -> (r: bool)
    ensures
        r == abi_text_admissible(abi@),
{
    let mut i: usize = 0;
    let mut run: usize = 0;
    let mut in_group: bool = false;
    let mut in_string: bool = false;
    while i < abi.len()
        invariant
            i <= abi@.len(),
            run <= i,
            run <= MAX_UNQUOTED_RUN,
            forall|k: int| i - run <= k < i ==> abi@[k] != 34u8,
            i - run > 0 ==> abi@[i - run - 1] == 34u8,
            forall|k: int| 0 <= k < i ==> byte_admissible(abi@, k),
            forall|a: int, b: int|
                0 <= a <= b <= i && b - a > MAX_UNQUOTED_RUN as int ==> quote_within(abi@, a, b),
            in_group == closes_array_group(abi@, i as int),
            in_string == inside_string(abi@, i as int),
        decreases abi.len() - i,
    {
        let b = abi[i];
        if b >= 128 || b == 92 || (b == 93 && in_string && !in_group) {
            assert(!byte_admissible(abi@, i as int));
            return false;
        }
        if b != 34 && run == MAX_UNQUOTED_RUN {
            let ghost lo = i - MAX_UNQUOTED_RUN;
            assert(!quote_within(abi@, lo, i + 1));
            return false;
        }
        proof {
            lemma_group_step(abi@, i as int);
            assert(inside_string(abi@, i + 1) == (inside_string(abi@, i as int) != (b == 34u8)));
            assert forall|a: int, c: int|
                0 <= a <= c <= i + 1 && c - a > MAX_UNQUOTED_RUN as int implies quote_within(abi@, a, c) by {
                if c == i + 1 {
                    if b == 34 {
                        assert(abi@[i as int] == 34u8);
                    } else {
                        let q = i - run - 1;
                        assert(abi@[q] == 34u8);
                    }
                }
            }
        }
        if b == 34 {
            run = 0;
            in_string = !in_string;
        } else {
            run = run + 1;
        }
        if b == 91 {
            in_group = true;
        } else if !(48 <= b && b <= 57) {
            in_group = false;
        }
        i = i + 1;
    }
    true
}

} // verus!
