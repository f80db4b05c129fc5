//! The textual form of identifiers: `Id(<index>,<generation>,<backend-tag>)`.
//!
//! The format is fixed, and injective over identifiers, so a harness can
//! assert on exact identifier strings and tell every identifier apart.

use vstd::prelude::*;
use vstd::string::StringExecFns;

use crate::id::{Backend, Identifier};

verus! {

/// The character for one decimal digit value.
pub open spec fn digit_char(d: int) -> char {
    if d == 0 {
        '0'
    } else if d == 1 {
        '1'
    } else if d == 2 {
        '2'
    } else if d == 3 {
        '3'
    } else if d == 4 {
        '4'
    } else if d == 5 {
        '5'
    } else if d == 6 {
        '6'
    } else if d == 7 {
        '7'
    } else if d == 8 {
        '8'
    } else {
        '9'
    }
}

/// The decimal text of `n`, most significant digit first, without leading
/// zeros (zero itself is the single character `0`).
pub open spec fn decimal_text(n: nat) -> Seq<char>
    decreases n,
{
    if n < 10 {
        seq![digit_char(n as int)]
    } else {
        decimal_text(n / 10).push(digit_char((n % 10) as int))
    }
}

/// The short code naming a backend inside an identifier's text.
pub open spec fn backend_code(b: Backend) -> Seq<char> {
    match b {
        Backend::Vulkan => seq!['v', 'k'],
        Backend::Metal => seq!['m', 't', 'l'],
        Backend::Dx12 => seq!['d', 'x', '1', '2'],
        Backend::Gl => seq!['g', 'l'],
        Backend::WebGpu => seq!['w', 'e', 'b', 'g', 'p', 'u'],
    }
}

/// What stands between the parentheses of an identifier's text: index,
/// generation and backend code, comma-separated.
pub open spec fn id_payload(id: Identifier) -> Seq<char> {
    decimal_text(id.index as nat) + seq![','] + decimal_text(id.generation as nat) + seq![',']
        + backend_code(id.backend)
}

/// The full textual form of an identifier.
pub open spec fn id_text(id: Identifier) -> Seq<char> {
    seq!['I', 'd', '('] + id_payload(id) + seq![')']
}

/// Distinct digit values print as distinct characters.
proof fn lemma_digit_char_injective(a: int, b: int)
    requires
        0 <= a < 10,
        0 <= b < 10,
        digit_char(a) == digit_char(b),
    ensures
        a == b,
{
}

/// Decimal text is never empty, and has at least two characters from 10 on.
proof fn lemma_decimal_text_len(n: nat)
    ensures
        decimal_text(n).len() >= 1,
        n >= 10 ==> decimal_text(n).len() >= 2,
    decreases n,
{
    if n >= 10 {
        lemma_decimal_text_len(n / 10);
    }
}

/// Decimal text consists of digit characters only: no separator ever occurs
/// inside it.
proof fn lemma_decimal_text_digits_only(n: nat, i: int)
    requires
        0 <= i < decimal_text(n).len(),
    ensures
        decimal_text(n)[i] != ',',
        decimal_text(n)[i] != ')',
    decreases n,
{
    if n >= 10 && i < decimal_text(n).len() - 1 {
        lemma_decimal_text_digits_only(n / 10, i);
    }
}

/// Distinct numbers print as distinct decimal texts.
proof fn lemma_decimal_text_injective(a: nat, b: nat)
    requires
        decimal_text(a) == decimal_text(b),
    ensures
        a == b,
    decreases a,
{
    lemma_decimal_text_len(a);
    lemma_decimal_text_len(b);
    if a < 10 && b < 10 {
        assert(decimal_text(a)[0] == digit_char(a as int));
        assert(decimal_text(b)[0] == digit_char(b as int));
        lemma_digit_char_injective(a as int, b as int);
    } else if a < 10 {
        assert(decimal_text(a).len() == 1);
    } else if b < 10 {
        assert(decimal_text(b).len() == 1);
    } else {
        assert(decimal_text(a).last() == digit_char((a % 10) as int));
        assert(decimal_text(b).last() == digit_char((b % 10) as int));
        lemma_digit_char_injective((a % 10) as int, (b % 10) as int);
        assert(decimal_text(a).drop_last() =~= decimal_text(a / 10));
        assert(decimal_text(b).drop_last() =~= decimal_text(b / 10));
        lemma_decimal_text_injective(a / 10, b / 10);
    }
}

/// Distinct backends carry distinct codes; the leading character alone tells
/// them apart.
proof fn lemma_backend_code_injective(a: Backend, b: Backend)
    requires
        backend_code(a) == backend_code(b),
    ensures
        a == b,
{
    assert(backend_code(a)[0] == backend_code(b)[0]);
    assert(backend_code(Backend::Vulkan)[0] == 'v');
    assert(backend_code(Backend::Metal)[0] == 'm');
    assert(backend_code(Backend::Dx12)[0] == 'd');
    assert(backend_code(Backend::Gl)[0] == 'g');
    assert(backend_code(Backend::WebGpu)[0] == 'w');
}

/// Two marker-separated texts agree segment by segment when neither left
/// segment contains the marker.
proof fn lemma_split_at_marker(s1: Seq<char>, t1: Seq<char>, s2: Seq<char>, t2: Seq<char>, c: char)
    requires
        s1 + seq![c] + t1 == s2 + seq![c] + t2,
        forall|i: int| 0 <= i < s1.len() ==> s1[i] != c,
        forall|i: int| 0 <= i < s2.len() ==> s2[i] != c,
    ensures
        s1 == s2,
        t1 == t2,
{
    let u1 = s1 + seq![c] + t1;
    let u2 = s2 + seq![c] + t2;
    if s1.len() < s2.len() {
        assert(u1[s1.len() as int] == c);
        assert(u2[s1.len() as int] == s2[s1.len() as int]);
        assert(false);
    }
    if s2.len() < s1.len() {
        assert(u2[s2.len() as int] == c);
        assert(u1[s2.len() as int] == s1[s2.len() as int]);
        assert(false);
    }
    assert(s1 =~= s2) by {
        assert forall|i: int| 0 <= i < s1.len() implies s1[i] == s2[i] by {
            assert(u1[i] == s1[i]);
            assert(u2[i] == s2[i]);
        }
    }
    assert(u1.len() == s1.len() + 1 + t1.len());
    assert(u2.len() == s2.len() + 1 + t2.len());
    assert(t1.len() == t2.len());
    assert(t1 =~= t2) by {
        assert forall|i: int| 0 <= i < t1.len() implies t1[i] == t2[i] by {
            assert(u1[s1.len() + 1 + i] == t1[i]);
            assert(u2[s2.len() + 1 + i] == t2[i]);
        }
    }
}

/// Identical texts come from identical identifiers: the textual form
/// determines index, generation and backend, so exact-match assertions on
/// identifier strings distinguish every identifier.
pub proof fn lemma_id_text_injective(x: Identifier, y: Identifier)
    requires
        id_text(x) == id_text(y),
    ensures
        x == y,
{
    let px = id_payload(x);
    let py = id_payload(y);
    assert(px =~= py) by {
        assert(id_text(x).len() == 4 + px.len());
        assert(id_text(y).len() == 4 + py.len());
        assert forall|i: int| 0 <= i < px.len() implies px[i] == py[i] by {
            assert(id_text(x)[3 + i] == px[i]);
            assert(id_text(y)[3 + i] == py[i]);
        }
    }
    let dx = decimal_text(x.index as nat);
    let dy = decimal_text(y.index as nat);
    let gx = decimal_text(x.generation as nat);
    let gy = decimal_text(y.generation as nat);
    let cx = backend_code(x.backend);
    let cy = backend_code(y.backend);
    assert(px =~= dx + seq![','] + (gx + seq![','] + cx));
    assert(py =~= dy + seq![','] + (gy + seq![','] + cy));
    assert forall|i: int| 0 <= i < dx.len() implies dx[i] != ',' by {
        lemma_decimal_text_digits_only(x.index as nat, i);
    }
    assert forall|i: int| 0 <= i < dy.len() implies dy[i] != ',' by {
        lemma_decimal_text_digits_only(y.index as nat, i);
    }
    lemma_split_at_marker(dx, gx + seq![','] + cx, dy, gy + seq![','] + cy, ',');
    lemma_decimal_text_injective(x.index as nat, y.index as nat);
    assert forall|i: int| 0 <= i < gx.len() implies gx[i] != ',' by {
        lemma_decimal_text_digits_only(x.generation as nat, i);
    }
    assert forall|i: int| 0 <= i < gy.len() implies gy[i] != ',' by {
        lemma_decimal_text_digits_only(y.generation as nat, i);
    }
    lemma_split_at_marker(gx, cx, gy, cy, ',');
    lemma_decimal_text_injective(x.generation as nat, y.generation as nat);
    lemma_backend_code_injective(x.backend, y.backend);
}

/// Append the single digit `d` to `s`.
fn push_digit(s: &mut String, d: u64)
    requires
        d < 10,
    ensures
        final(s)@ == old(s)@.push(digit_char(d as int)),
{
    match d {
        0 => {
            proof {
                reveal_strlit("0");
            }
            s.append("0");
        },
        1 => {
            proof {
                reveal_strlit("1");
            }
            s.append("1");
        },
        2 => {
            proof {
                reveal_strlit("2");
            }
            s.append("2");
        },
        3 => {
            proof {
                reveal_strlit("3");
            }
            s.append("3");
        },
        4 => {
            proof {
                reveal_strlit("4");
            }
            s.append("4");
        },
        5 => {
            proof {
                reveal_strlit("5");
            }
            s.append("5");
        },
        6 => {
            proof {
                reveal_strlit("6");
            }
            s.append("6");
        },
        7 => {
            proof {
                reveal_strlit("7");
            }
            s.append("7");
        },
        8 => {
            proof {
                reveal_strlit("8");
            }
            s.append("8");
        },
        _ => {
            proof {
                reveal_strlit("9");
            }
            s.append("9");
        },
    }
    proof {
        assert(s@ =~= old(s)@.push(digit_char(d as int)));
    }
}

/// Append the decimal text of `n` to `s`.
fn push_decimal(s: &mut String, n: u64)
    ensures
        final(s)@ == old(s)@ + decimal_text(n as nat),
    decreases n,
{
    if n >= 10 {
        push_decimal(s, n / 10);
        push_digit(s, n % 10);
    } else {
        push_digit(s, n);
    }
    proof {
        assert(s@ =~= old(s)@ + decimal_text(n as nat));
    }
}

impl Identifier {
    /// This identifier's textual form, `Id(<index>,<generation>,<tag>)`;
    /// the form a harness asserts on, e.g. `Id(0,1,vk)`.
    pub fn text(&self) -> (s: String)
        ensures
            s@ == id_text(*self),
    {
        proof {
            reveal_strlit("Id(");
            reveal_strlit(",");
            reveal_strlit(")");
            assert("Id("@ =~= seq!['I', 'd', '(']);
            assert(","@ =~= seq![',']);
            assert(")"@ =~= seq![')']);
        }
        let mut s = String::from_str("Id(");
        push_decimal(&mut s, self.index);
        s.append(",");
        push_decimal(&mut s, self.generation);
        s.append(",");
        match self.backend {
            Backend::Vulkan => {
                proof {
                    reveal_strlit("vk");
                    assert("vk"@ =~= backend_code(Backend::Vulkan));
                }
                s.append("vk");
            },
            Backend::Metal => {
                proof {
                    reveal_strlit("mtl");
                    assert("mtl"@ =~= backend_code(Backend::Metal));
                }
                s.append("mtl");
            },
            Backend::Dx12 => {
                proof {
                    reveal_strlit("dx12");
                    assert("dx12"@ =~= backend_code(Backend::Dx12));
                }
                s.append("dx12");
            },
            Backend::Gl => {
                proof {
                    reveal_strlit("gl");
                    assert("gl"@ =~= backend_code(Backend::Gl));
                }
                s.append("gl");
            },
            Backend::WebGpu => {
                proof {
                    reveal_strlit("webgpu");
                    assert("webgpu"@ =~= backend_code(Backend::WebGpu));
                }
                s.append("webgpu");
            },
        }
        s.append(")");
        proof {
            assert(s@ =~= id_text(*self));
        }
        s
    }
}

} // verus!
