use vstd::prelude::*;
use vstd::string::StringExecFns;

verus! {

/// The keys handed out when `count` are asked for.
pub open spec fn hint_keys(count: nat) -> Seq<Seq<char>> {
    Seq::new(
        if count < max_key_count() {
            count
        } else {
            max_key_count()
        },
        |k: int| hint_key(k),
    )
}

/// The letters that hint keys are made of: the lower-case alphabet without `i`, `l`
/// and `o`, which are easily confused with other characters.
pub open spec fn key_alphabet() -> Seq<char> {
    seq![
        'a', 'b', 'c', 'd', 'e', 'f', 'g', 'h', 'j', 'k', 'm', 'n', 'p', 'q', 'r', 's', 't',
        'u', 'v', 'w', 'x', 'y', 'z',
    ]
}

/// How many hint keys there are at most: every letter alone, then every pair.
pub open spec fn max_key_count() -> nat {
    23 + 23 * 23
}

/// The `k`-th hint key: first each letter on its own, then all two-letter keys in
/// order of their first and then their second letter.
pub open spec fn hint_key(k: int) -> Seq<char> {
    if k < 23 {
        seq![key_alphabet()[k]]
    } else {
        seq![key_alphabet()[(k - 23) / 23], key_alphabet()[(k - 23) % 23]]
    }
}

/// The text of `c`, by std's `ToString::to_string` on `char`. Trusted: the contract
/// claims that the string holds exactly the one character `c`, as `char`'s `Display`
/// writes it.
#[verifier::external_body]
fn char_to_string(c: char) -> (s: String)
    ensures
        s@ == seq![c],
{
    c.to_string()
}

/// Generates `count` short, easily typed keys for jumping to links, or as many as
/// there are (every letter alone and then every pair of letters) when more are
/// asked for.
pub fn generate_key_combinations(count: usize) -> (keys: Vec<String>)
    ensures
        keys@.map_values(|key: String| key@) == hint_keys(count as nat),
{
    let chars: Vec<char> = vec![
        'a', 'b', 'c', 'd', 'e', 'f', 'g', 'h', 'j', 'k', 'm', 'n', 'p', 'q', 'r', 's', 't',
        'u', 'v', 'w', 'x', 'y', 'z',
    ];
    assert(chars@ == key_alphabet());
    let n_chars = chars.len();
    let mut keys: Vec<String> = Vec::new();
    let singles = if count < n_chars {
        count
    } else {
        n_chars
    };
    let mut k: usize = 0;
    while k < singles
        invariant
            chars@ == key_alphabet(),
            n_chars == 23,
            singles <= n_chars,
            k <= singles,
            keys@.len() == k,
            forall|j: int| 0 <= j < keys@.len() ==> #[trigger] keys@[j]@ == hint_key(j),
        decreases singles - k,
    {
        keys.push(char_to_string(chars[k]));
        k = k + 1;
    }
    if count > n_chars {
        let remaining = count - n_chars;
        let mut added: usize = 0;
        let mut first: usize = 0;
        while first < n_chars && added < remaining
            invariant
                chars@ == key_alphabet(),
                n_chars == 23,
                remaining == count - 23,
                first <= 23,
                added <= remaining,
                added <= first * 23,
                added < remaining ==> added == first * 23,
                keys@.len() == 23 + added,
                forall|j: int| 0 <= j < keys@.len() ==> #[trigger] keys@[j]@ == hint_key(j),
            decreases 23 - first,
        {
            let mut second: usize = 0;
            while second < n_chars && added < remaining
                invariant
                    chars@ == key_alphabet(),
                    n_chars == 23,
                    remaining == count - 23,
                    first < 23,
                    second <= 23,
                    added <= remaining,
                    added == first * 23 + second,
                    keys@.len() == 23 + added,
                    forall|j: int| 0 <= j < keys@.len() ==> #[trigger] keys@[j]@ == hint_key(j),
                decreases 23 - second,
            {
                let mut key = char_to_string(chars[first]);
                let tail = char_to_string(chars[second]);
                key.append(tail.as_str());
                proof {
                    vstd::arithmetic::div_mod::lemma_fundamental_div_mod_converse(
                        added as int,
                        23,
                        first as int,
                        second as int,
                    );
                    assert(key@ =~= hint_key(23 + added));
                }
                keys.push(key);
                added = added + 1;
                second = second + 1;
            }
            first = first + 1;
        }
    }
    assert(keys@.map_values(|key: String| key@) =~= hint_keys(count as nat));
    keys
}

/// No two hint keys are the same, so every key picks out one link.
pub proof fn lemma_hint_keys_distinct(k1: int, k2: int)
    requires
        0 <= k1 < k2 < max_key_count(),
    ensures
        hint_key(k1) != hint_key(k2),
{
    assert(forall|i: int, j: int|
        0 <= i < j < 23 ==> #[trigger] key_alphabet()[i] != #[trigger] key_alphabet()[j]);
    if k2 < 23 {
        assert(hint_key(k1)[0] != hint_key(k2)[0]);
    } else if k1 < 23 {
        assert(hint_key(k1).len() != hint_key(k2).len());
    } else {
        let q1 = (k1 - 23) / 23;
        let r1 = (k1 - 23) % 23;
        let q2 = (k2 - 23) / 23;
        let r2 = (k2 - 23) % 23;
        vstd::arithmetic::div_mod::lemma_fundamental_div_mod(k1 - 23, 23);
        vstd::arithmetic::div_mod::lemma_fundamental_div_mod(k2 - 23, 23);
        if q1 == q2 {
            assert(r1 != r2);
            assert(hint_key(k1)[1] != hint_key(k2)[1]);
        } else {
            assert(hint_key(k1)[0] != hint_key(k2)[0]);
        }
    }
}

/// Asking for fewer keys gives a prefix of the keys handed out for a larger count:
/// hints already shown keep their keys when more are added.
pub proof fn lemma_hint_keys_prefix(fewer: nat, more: nat)
    requires
        fewer <= more,
    ensures
        hint_keys(fewer) == hint_keys(more).take(hint_keys(fewer).len() as int),
{
    assert(hint_keys(fewer) =~= hint_keys(more).take(hint_keys(fewer).len() as int));
}

/// Asking for `count` keys gives `count` keys, up to the 23 letters alone and the
/// 23 * 23 pairs of them; asking for more gives all 552.
pub proof fn lemma_hint_key_count(count: nat)
    ensures
        count <= 552 ==> hint_keys(count).len() == count,
        count > 552 ==> hint_keys(count).len() == 552,
{
}

/// The keys are the single letters of the alphabet in order, then the pairs of
/// letters ordered by first and then second letter: key 23 is "aa", key 24 "ab",
/// and the key after the pair (x, y) is (x, y + 1), or (x + 1, a) after (x, z).
pub proof fn lemma_hint_key_order(k: int)
    requires
        0 <= k < 552,
    ensures
        k < 23 ==> hint_key(k) == seq![key_alphabet()[k]],
        k == 23 ==> hint_key(k) == seq!['a', 'a'],
        23 <= k < 551 && hint_key(k)[1] != 'z' ==> hint_key(k + 1)[0] == hint_key(k)[0],
        23 <= k < 551 && hint_key(k)[1] == 'z' ==> hint_key(k + 1)[1] == 'a',
        k >= 23 ==> hint_key(k).len() == 2,
{
    if 23 <= k < 551 {
        let j = k - 23;
        vstd::arithmetic::div_mod::lemma_fundamental_div_mod(j, 23);
        vstd::arithmetic::div_mod::lemma_fundamental_div_mod(j + 1, 23);
        assert(forall|i: int| 0 <= i < 22 ==> #[trigger] key_alphabet()[i] != 'z');
        if j % 23 < 22 {
            vstd::arithmetic::div_mod::lemma_fundamental_div_mod_converse(j + 1, 23, j / 23, j % 23 + 1);
        } else {
            vstd::arithmetic::div_mod::lemma_fundamental_div_mod_converse(j + 1, 23, j / 23 + 1, 0);
        }
    }
}

/// The alphabet is the lower-case letters from `a` to `z` in order, each once, with
/// exactly `i`, `l` and `o` left out.
pub proof fn lemma_key_alphabet_letters()
    ensures
        key_alphabet().len() == 23,
        forall|i: int| 0 <= i < 22 ==> #[trigger] key_alphabet()[i] < key_alphabet()[i + 1],
        forall|i: int| 0 <= i < 23 ==> 'a' <= #[trigger] key_alphabet()[i] <= 'z',
        forall|i: int|
            0 <= i < 23 ==> #[trigger] key_alphabet()[i] != 'i' && key_alphabet()[i] != 'l'
                && key_alphabet()[i] != 'o',
        key_alphabet()[0] == 'a',
        key_alphabet()[22] == 'z',
{
}

} // verus!
