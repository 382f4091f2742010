//! The name of a channel's worker.

use vstd::prelude::*;
use vstd::string::StringExecFns;

verus! {

/// The decimal digit of value `d`.
pub open spec fn digit(d: nat) -> char {
    ('0' as nat + d) as char
}

/// `n` in decimal, without leading zeros.
pub open spec fn decimal(n: nat) -> Seq<char>
    decreases n,
{
    if n < 10 {
        seq![digit(n)]
    } else {
        decimal(n / 10).push(digit(n % 10))
    }
}

/// The name of the worker of channel `proxy_id`.
pub open spec fn spec_worker_name(proxy_id: u64) -> Seq<char> {
    "vmbus proxy worker "@ + decimal(proxy_id as nat)
}

fn digit_text(d: u64) -> (text: &'static str)
    requires
        d < 10,
    ensures
        text@ == seq![digit(d as nat)],
{
    proof {
        reveal_strlit("0");
        reveal_strlit("1");
        reveal_strlit("2");
        reveal_strlit("3");
        reveal_strlit("4");
        reveal_strlit("5");
        reveal_strlit("6");
        reveal_strlit("7");
        reveal_strlit("8");
        reveal_strlit("9");
    }
    let text = match d {
        0 => "0",
        1 => "1",
        2 => "2",
        3 => "3",
        4 => "4",
        5 => "5",
        6 => "6",
        7 => "7",
        8 => "8",
        _ => "9",
    };
    assert(text@ =~= seq![digit(d as nat)]);
    text
}

fn decimal_text(n: u64) -> (text: String)
    ensures
        text@ == decimal(n as nat),
    decreases n,
{
    if n < 10 {
        digit_text(n).to_owned()
    } else {
        let mut text = decimal_text(n / 10);
        text.append(digit_text(n % 10));
        assert(text@ =~= decimal(n as nat));
        text
    }
}

/// The name under which the worker of channel `proxy_id` is started.
pub fn worker_name(proxy_id: u64) -> (name: String)
    ensures
        name@ == spec_worker_name(proxy_id),
{
    let mut name = "vmbus proxy worker ".to_owned();
    let number = decimal_text(proxy_id);
    name.append(number.as_str());
    name
}

proof fn lemma_decimal_injective(a: nat, b: nat)
    requires
        decimal(a) == decimal(b),
    ensures
        a == b,
    decreases a,
{
    assert(decimal(a).len() > 0 && decimal(b).len() > 0);
    assert(decimal(a).last() == digit(a % 10));
    assert(decimal(b).last() == digit(b % 10));
    assert(digit(a % 10) as nat == '0' as nat + a % 10);
    assert(digit(b % 10) as nat == '0' as nat + b % 10);
    if a >= 10 && b >= 10 {
        assert(decimal(a).drop_last() =~= decimal(a / 10));
        assert(decimal(b).drop_last() =~= decimal(b / 10));
        lemma_decimal_injective(a / 10, b / 10);
    } else if a >= 10 {
        assert(decimal(a).len() == decimal(a / 10).len() + 1);
        assert(decimal(a / 10).len() > 0);
    } else if b >= 10 {
        assert(decimal(b).len() == decimal(b / 10).len() + 1);
        assert(decimal(b / 10).len() > 0);
    }
}

/// The number that `digits` spell, the last weighing one and each other ten times
/// as much as the one behind it.
pub open spec fn number_of(digits: Seq<char>) -> int
    decreases digits.len(),
{
    if digits.len() == 0 {
        0
    } else {
        10 * number_of(digits.drop_last()) + (digits.last() as int - '0' as int)
    }
}

/// `digits` is `n` as people write it: of decimal digits alone, and beginning with
/// a zero only where it is zero itself.
pub open spec fn is_numeral(digits: Seq<char>, n: nat) -> bool {
    &&& digits.len() > 0
    &&& forall|i: int| 0 <= i < digits.len() ==> '0' <= #[trigger] digits[i] <= '9'
    &&& digits[0] == '0' ==> digits.len() == 1
    &&& number_of(digits) == n
}

proof fn lemma_decimal_is_numeral(n: nat)
    ensures
        is_numeral(decimal(n), n),
        n > 0 ==> decimal(n)[0] != '0',
    decreases n,
{
    let digits = decimal(n);
    if n < 10 {
        assert(digits.drop_last() =~= Seq::<char>::empty());
        assert(digit(n) as nat == '0' as nat + n);
        reveal_with_fuel(number_of, 2);
    } else {
        lemma_decimal_is_numeral(n / 10);
        assert(digits.drop_last() =~= decimal(n / 10));
        assert(digit(n % 10) as nat == '0' as nat + n % 10);
        assert forall|i: int| 0 <= i < digits.len() implies '0' <= #[trigger] digits[i] <= '9' by {
            if i < digits.len() - 1 {
                assert(digits[i] == decimal(n / 10)[i]);
            }
        }
        assert(digits[0] == decimal(n / 10)[0]);
    }
}

/// The name of a worker is a fixed text of nineteen characters and, behind it, the
/// number of its channel in decimal.
pub proof fn law_worker_name_ends_in_number(proxy_id: u64)
    ensures
        spec_worker_name(proxy_id).len() > 19,
        spec_worker_name(proxy_id).take(19) == "vmbus proxy worker "@,
        is_numeral(spec_worker_name(proxy_id).skip(19), proxy_id as nat),
{
    reveal_strlit("vmbus proxy worker ");
    lemma_decimal_is_numeral(proxy_id as nat);
    assert(spec_worker_name(proxy_id).take(19) =~= "vmbus proxy worker "@);
    assert(spec_worker_name(proxy_id).skip(19) =~= decimal(proxy_id as nat));
}

/// Workers of different channels have different names.
pub proof fn law_worker_names_differ(a: u64, b: u64)
    requires
        a != b,
    ensures
        spec_worker_name(a) != spec_worker_name(b),
{
    let prefix = "vmbus proxy worker "@;
    if spec_worker_name(a) == spec_worker_name(b) {
        let n = prefix.len() as int;
        assert(decimal(a as nat) =~= spec_worker_name(a).skip(n));
        assert(decimal(b as nat) =~= spec_worker_name(b).skip(n));
        lemma_decimal_injective(a as nat, b as nat);
    }
}

} // verus!
