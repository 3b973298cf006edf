use vstd::prelude::*;

use crate::address::base58_of;
use crate::quote::{mode_text, QuoteRequest};
use vstd::string::StringExecFns;

verus! {

// ---------------------------------------------------------------------------
// Decimal rendering
// ---------------------------------------------------------------------------

/// The character of one decimal digit.
pub open spec fn dec_char(d: nat) -> char {
    if d == 0 {
        '0'
    } else if d == 1 {
        '1'
    } else if d == 2 {
        '2'
    } else if d == 3 {
        '3'
    } else if d == 4 {
        '4'
    } else if d == 5 {
        '5'
    } else if d == 6 {
        '6'
    } else if d == 7 {
        '7'
    } else if d == 8 {
        '8'
    } else {
        '9'
    }
}

/// The decimal text of a number: most significant digit first, no leading
/// zero except for the number zero itself.
pub open spec fn dec_digits(n: nat) -> Seq<char>
    decreases n,
{
    if n < 10 {
        seq![dec_char(n)]
    } else {
        dec_digits(n / 10) + seq![dec_char(n % 10)]
    }
}

fn digit_str(d: u64) -> (r: &'static str)
    requires
        d < 10,
    ensures
        r@ == seq![dec_char(d as nat)],
{
    proof {
        reveal_strlit("0");
        reveal_strlit("1");
        reveal_strlit("2");
        reveal_strlit("3");
        reveal_strlit("4");
        reveal_strlit("5");
        reveal_strlit("6");
        reveal_strlit("7");
        reveal_strlit("8");
        reveal_strlit("9");
    }
    let r = if d == 0 {
        "0"
    } else if d == 1 {
        "1"
    } else if d == 2 {
        "2"
    } else if d == 3 {
        "3"
    } else if d == 4 {
        "4"
    } else if d == 5 {
        "5"
    } else if d == 6 {
        "6"
    } else if d == 7 {
        "7"
    } else if d == 8 {
        "8"
    } else {
        "9"
    };
    proof {
        assert(r@ =~= seq![dec_char(d as nat)]);
    }
    r
}

/// Renders a number as decimal text.
pub fn u64_to_decimal(n: u64) -> (r: String)
    ensures
        r@ == dec_digits(n as nat),
    decreases n,
{
    if n < 10 {
        digit_str(n).to_owned()
    } else {
        let prefix = u64_to_decimal(n / 10);
        prefix.concat(digit_str(n % 10))
    }
}

/// The textual form of a flag: "true" or "false".
pub open spec fn bool_text(b: bool) -> Seq<char> {
    if b {
        "true"@
    } else {
        "false"@
    }
}

fn bool_str(b: bool) -> (r: &'static str)
    ensures
        r@ == bool_text(b),
{
    if b {
        "true"
    } else {
        "false"
    }
}

// ---------------------------------------------------------------------------
// Query parameters
// ---------------------------------------------------------------------------

/// The ordered key/value parameters a request encodes to. The four required
/// parameters come first; each optional parameter follows, in this fixed
/// order, only when present, and the slippage parameter only when positive.
pub open spec fn spec_query_params(r: QuoteRequest) -> Seq<(Seq<char>, Seq<char>)> {
    let base = seq![
        ("inputMint"@, base58_of(r.input_mint@)),
        ("outputMint"@, base58_of(r.output_mint@)),
        ("amount"@, dec_digits(r.amount as nat)),
        ("userPublicKey"@, base58_of(r.user_pubkey@)),
    ];
    let p1 = match r.max_accounts {
        Some(m) => base.push(("accountsLimitTotal"@, dec_digits(m as nat))),
        None => base,
    };
    let p2 = match r.swap_mode {
        Some(sm) => p1.push(("swapMode"@, mode_text(sm))),
        None => p1,
    };
    let p3 = if r.slippage_bps > 0 {
        p2.push(("slippageBps"@, dec_digits(r.slippage_bps as nat)))
    } else {
        p2
    };
    let p4 = match r.only_direct_routes {
        Some(b) => p3.push(("onlyDirectRoutes"@, bool_text(b))),
        None => p3,
    };
    let p5 = match r.excluded_dexes {
        Some(d) => p4.push(("excludeDexes"@, d@)),
        None => p4,
    };
    let p6 = match r.size_constraints {
        Some(s) => p5.push(("sizeConstraint"@, dec_digits(s as nat))),
        None => p5,
    };
    let p7 = match r.accounts_limit_writable {
        Some(w) => p6.push(("accountsLimitWritable"@, dec_digits(w as nat))),
        None => p6,
    };
    match r.providers {
        Some(p) => p7.push(("providers"@, p@)),
        None => p7,
    }
}

/// Whether no parameter of the list carries the given key.
pub open spec fn key_absent(s: Seq<(Seq<char>, Seq<char>)>, key: Seq<char>) -> bool {
    forall|k: int| 0 <= k < s.len() ==> (#[trigger] s[k]).0 != key
}

proof fn lemma_key_absent_push(
    s: Seq<(Seq<char>, Seq<char>)>,
    key: Seq<char>,
    x: (Seq<char>, Seq<char>),
)
    requires
        key_absent(s, key),
        x.0 != key,
    ensures
        key_absent(s.push(x), key),
{
    assert forall|k: int| 0 <= k < s.push(x).len() implies (#[trigger] s.push(x)[k]).0
        != key by {
        if k < s.len() {
            assert(s.push(x)[k] == s[k]);
        } else {
            assert(s.push(x)[k] == x);
        }
    }
}

/// A request with zero slippage omits the slippage parameter entirely; one
/// with positive slippage includes it, with the exact decimal value.
pub proof fn lemma_slippage_param(r: QuoteRequest)
    ensures
        r.slippage_bps == 0 ==> key_absent(spec_query_params(r), "slippageBps"@),
        r.slippage_bps > 0 ==> exists|k: int|
            0 <= k < spec_query_params(r).len() && (#[trigger] spec_query_params(r)[k]).0
                == "slippageBps"@ && spec_query_params(r)[k].1 == dec_digits(
                r.slippage_bps as nat,
            ),
{
    reveal_strlit("inputMint");
    reveal_strlit("outputMint");
    reveal_strlit("amount");
    reveal_strlit("userPublicKey");
    reveal_strlit("accountsLimitTotal");
    reveal_strlit("swapMode");
    reveal_strlit("slippageBps");
    reveal_strlit("onlyDirectRoutes");
    reveal_strlit("excludeDexes");
    reveal_strlit("sizeConstraint");
    reveal_strlit("accountsLimitWritable");
    reveal_strlit("providers");
    let key = "slippageBps"@;
    assert("slippageBps"@.len() == 11);
    assert("inputMint"@.len() == 9);
    assert("outputMint"@.len() == 10);
    assert("amount"@.len() == 6);
    assert("userPublicKey"@.len() == 13);
    assert("accountsLimitTotal"@.len() == 18);
    assert("swapMode"@.len() == 8);
    assert("onlyDirectRoutes"@.len() == 16);
    assert("excludeDexes"@.len() == 12);
    assert("sizeConstraint"@.len() == 14);
    assert("accountsLimitWritable"@.len() == 21);
    assert("providers"@.len() == 9);
    assert("inputMint"@ != key && "outputMint"@ != key && "amount"@ != key && "userPublicKey"@
        != key && "accountsLimitTotal"@ != key && "swapMode"@ != key && "onlyDirectRoutes"@ != key
        && "excludeDexes"@ != key && "sizeConstraint"@ != key && "accountsLimitWritable"@ != key
        && "providers"@ != key);
    let base = seq![
        ("inputMint"@, base58_of(r.input_mint@)),
        ("outputMint"@, base58_of(r.output_mint@)),
        ("amount"@, dec_digits(r.amount as nat)),
        ("userPublicKey"@, base58_of(r.user_pubkey@)),
    ];
    let p1 = match r.max_accounts {
        Some(m) => base.push(("accountsLimitTotal"@, dec_digits(m as nat))),
        None => base,
    };
    let p2 = match r.swap_mode {
        Some(sm) => p1.push(("swapMode"@, crate::quote::mode_text(sm))),
        None => p1,
    };
    let p3 = if r.slippage_bps > 0 {
        p2.push(("slippageBps"@, dec_digits(r.slippage_bps as nat)))
    } else {
        p2
    };
    let p4 = match r.only_direct_routes {
        Some(b) => p3.push(("onlyDirectRoutes"@, bool_text(b))),
        None => p3,
    };
    let p5 = match r.excluded_dexes {
        Some(d) => p4.push(("excludeDexes"@, d@)),
        None => p4,
    };
    let p6 = match r.size_constraints {
        Some(s) => p5.push(("sizeConstraint"@, dec_digits(s as nat))),
        None => p5,
    };
    let p7 = match r.accounts_limit_writable {
        Some(w) => p6.push(("accountsLimitWritable"@, dec_digits(w as nat))),
        None => p6,
    };
    let p8 = match r.providers {
        Some(p) => p7.push(("providers"@, p@)),
        None => p7,
    };
    assert(spec_query_params(r) == p8);
    assert forall|k: int| 0 <= k < base.len() implies (#[trigger] base[k]).0 != key by {
        if k == 0 {
            assert(base[0].0 == "inputMint"@);
        } else if k == 1 {
            assert(base[1].0 == "outputMint"@);
        } else if k == 2 {
            assert(base[2].0 == "amount"@);
        } else {
            assert(base[3].0 == "userPublicKey"@);
        }
    }
    assert(key_absent(base, key));
    match r.max_accounts {
        Some(m) => lemma_key_absent_push(base, key, ("accountsLimitTotal"@, dec_digits(m as nat))),
        None => {},
    }
    assert(key_absent(p1, key));
    match r.swap_mode {
        Some(sm) => lemma_key_absent_push(p1, key, ("swapMode"@, crate::quote::mode_text(sm))),
        None => {},
    }
    assert(key_absent(p2, key));
    if r.slippage_bps == 0 {
        assert(p3 == p2);
        match r.only_direct_routes {
            Some(b) => lemma_key_absent_push(p3, key, ("onlyDirectRoutes"@, bool_text(b))),
            None => {},
        }
        assert(key_absent(p4, key));
        match r.excluded_dexes {
            Some(d) => lemma_key_absent_push(p4, key, ("excludeDexes"@, d@)),
            None => {},
        }
        assert(key_absent(p5, key));
        match r.size_constraints {
            Some(sc) => lemma_key_absent_push(p5, key, ("sizeConstraint"@, dec_digits(sc as nat))),
            None => {},
        }
        assert(key_absent(p6, key));
        match r.accounts_limit_writable {
            Some(w) => lemma_key_absent_push(
                p6,
                key,
                ("accountsLimitWritable"@, dec_digits(w as nat)),
            ),
            None => {},
        }
        assert(key_absent(p7, key));
        match r.providers {
            Some(p) => lemma_key_absent_push(p7, key, ("providers"@, p@)),
            None => {},
        }
        assert(key_absent(p8, key));
    } else {
        let idx = p2.len() as int;
        assert(p3[idx] == ("slippageBps"@, dec_digits(r.slippage_bps as nat)));
        assert(p4[idx] == p3[idx]);
        assert(p5[idx] == p4[idx]);
        assert(p6[idx] == p5[idx]);
        assert(p7[idx] == p6[idx]);
        assert(p8[idx] == p7[idx]);
        assert(0 <= idx < p8.len() && (p8[idx]).0 == key);
    }
}

/// Encodes a request as the ordered key/value parameters of the outbound
/// query string, exactly as `spec_query_params` lays them out.
#[verifier::rlimit(60)]
pub fn build_query_params(request: &QuoteRequest) -> (r: Vec<(&'static str, String)>)
    ensures
        r.deep_view() == spec_query_params(*request),
{
    let mut params: Vec<(&'static str, String)> = Vec::new();
    params.push(("inputMint", request.input_mint.to_base58()));
    params.push(("outputMint", request.output_mint.to_base58()));
    params.push(("amount", u64_to_decimal(request.amount)));
    params.push(("userPublicKey", request.user_pubkey.to_base58()));

    if let Some(max_accounts) = request.max_accounts {
        params.push(("accountsLimitTotal", u64_to_decimal(max_accounts as u64)));
    }
    if let Some(swap_mode) = request.swap_mode {
        params.push(("swapMode", swap_mode.as_str().to_owned()));
    }
    if request.slippage_bps > 0 {
        params.push(("slippageBps", u64_to_decimal(request.slippage_bps as u64)));
    }
    if let Some(only_direct_routes) = request.only_direct_routes {
        params.push(("onlyDirectRoutes", bool_str(only_direct_routes).to_owned()));
    }
    if let Some(excluded_dexes) = &request.excluded_dexes {
        params.push(("excludeDexes", excluded_dexes.clone()));
    }
    if let Some(size_constraints) = request.size_constraints {
        params.push(("sizeConstraint", u64_to_decimal(size_constraints)));
    }
    if let Some(accounts_limit_writable) = request.accounts_limit_writable {
        params.push(("accountsLimitWritable", u64_to_decimal(accounts_limit_writable)));
    }
    if let Some(providers) = &request.providers {
        params.push(("providers", providers.clone()));
    }
    proof {
        assert(params.deep_view() =~~= spec_query_params(*request));
    }
    params
}

} // verus!
