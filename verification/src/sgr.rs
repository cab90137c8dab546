//! Select Graphic Rendition: from the parameters of a `CSI ... m` sequence
//! to the list of pen changes that they ask for.

use vstd::prelude::*;
use crate::ansi::Attr;
use crate::cell::Color;

verus! {

/// The parameters of a sequence as mathematical sequences; each parameter is
/// the list of its sub-parameters.
pub open spec fn rows(params: Seq<Vec<u16>>) -> Seq<Seq<u16>> {
    params.map_values(|p: Vec<u16>| p@)
}

/// The first sub-parameter of a parameter; zero when there is none.
pub open spec fn head(param: Seq<u16>) -> u16 {
    if param.len() > 0 {
        param[0]
    } else {
        0
    }
}

/// A color written as `2, r, g, b` or as `5, index`, read from the front of
/// `values`, and the number of values that were looked at. A component above
/// 255 or a missing one gives no color; reading stops right there.
pub open spec fn extended_color(values: Seq<u16>) -> (Option<Color>, int) {
    if values.len() == 0 {
        (None, 0)
    } else if values[0] == 2 {
        if values.len() < 2 {
            (None, 1)
        } else if values[1] > 255 || values.len() < 3 {
            (None, 2)
        } else if values[2] > 255 || values.len() < 4 {
            (None, 3)
        } else if values[3] > 255 {
            (None, 4)
        } else {
            (Some(Color::Rgb(values[1] as u8, values[2] as u8, values[3] as u8)), 4)
        }
    } else if values[0] == 5 {
        if values.len() < 2 {
            (None, 1)
        } else if values[1] > 255 {
            (None, 2)
        } else {
            (Some(Color::Indexed(values[1])), 2)
        }
    } else {
        (None, 1)
    }
}

/// The values of a color given in sub-parameters (`38:2:r:g:b`,
/// `38:2:space:r:g:b` or `38:5:index`), without the leading 38 or 48: the
/// kind, then the components; with more than four values the one after the
/// kind names a color space and is skipped.
pub open spec fn subparam_values(rest: Seq<u16>) -> Seq<u16> {
    if rest.len() == 0 {
        rest
    } else if rest.len() > 4 {
        seq![rest[0]] + rest.subrange(2, rest.len() as int)
    } else {
        rest
    }
}

/// The pen change that one parameter asks for by itself. The bare
/// parameters 38 and 48 are not covered: they take their color from the
/// parameters that follow.
pub open spec fn attr_of(p: Seq<u16>) -> Option<Attr> {
    if p.len() == 0 {
        None
    } else if p.len() == 1 {
        let n = p[0];
        if n == 0 {
            Some(Attr::Reset)
        } else if n == 1 {
            Some(Attr::Bold)
        } else if n == 3 {
            Some(Attr::Italic)
        } else if n == 4 {
            Some(Attr::Underline)
        } else if n == 7 {
            Some(Attr::Reverse)
        } else if n == 8 {
            Some(Attr::Hidden)
        } else if n == 21 {
            Some(Attr::CancelBold)
        } else if n == 22 {
            Some(Attr::CancelBoldDim)
        } else if n == 23 {
            Some(Attr::CancelItalic)
        } else if n == 24 {
            Some(Attr::CancelUnderline)
        } else if n == 27 {
            Some(Attr::CancelReverse)
        } else if n == 28 {
            Some(Attr::CancelHidden)
        } else if 30 <= n <= 37 {
            Some(Attr::Foreground(Color::Indexed((n - 30) as u16)))
        } else if n == 39 {
            Some(Attr::Foreground(Color::Indexed(256)))
        } else if 40 <= n <= 47 {
            Some(Attr::Background(Color::Indexed((n - 40) as u16)))
        } else if n == 49 {
            Some(Attr::Background(Color::Indexed(257)))
        } else if 90 <= n <= 97 {
            Some(Attr::Foreground(Color::Indexed((n - 90 + 8) as u16)))
        } else if 100 <= n <= 107 {
            Some(Attr::Background(Color::Indexed((n - 100 + 8) as u16)))
        } else {
            None
        }
    } else if p[0] == 4 {
        if p.len() == 2 && p[1] == 0 {
            Some(Attr::CancelUnderline)
        } else {
            Some(Attr::Underline)
        }
    } else if p[0] == 38 {
        match extended_color(subparam_values(p.subrange(1, p.len() as int))).0 {
            Some(c) => Some(Attr::Foreground(c)),
            None => None,
        }
    } else if p[0] == 48 {
        match extended_color(subparam_values(p.subrange(1, p.len() as int))).0 {
            Some(c) => Some(Attr::Background(c)),
            None => None,
        }
    } else {
        None
    }
}

/// Whether `p` is the bare parameter 38 or 48.
pub open spec fn takes_following(p: Seq<u16>) -> bool {
    p.len() == 1 && (p[0] == 38 || p[0] == 48)
}

/// The first sub-parameters of up to four parameters from `from` on.
pub open spec fn window(params: Seq<Seq<u16>>, from: int) -> Seq<u16> {
    Seq::new(
        (if params.len() - from >= 4 {
            4
        } else if params.len() - from >= 0 {
            params.len() - from
        } else {
            0
        }) as nat,
        |k: int| head(params[from + k]),
    )
}

/// The pen changes that the parameters from `from` on ask for, in order.
pub open spec fn sgr_attrs(params: Seq<Seq<u16>>, from: int) -> Seq<Attr>
    decreases params.len() - from,
{
    if from < 0 || from >= params.len() {
        Seq::empty()
    } else if takes_following(params[from]) {
        let (color, used) = extended_color(window(params, from + 1));
        let rest = sgr_attrs(params, from + 1 + used);
        match color {
            Some(c) => if params[from][0] == 38 {
                seq![Attr::Foreground(c)] + rest
            } else {
                seq![Attr::Background(c)] + rest
            },
            None => rest,
        }
    } else {
        match attr_of(params[from]) {
            Some(a) => seq![a] + sgr_attrs(params, from + 1),
            None => sgr_attrs(params, from + 1),
        }
    }
}

/// Reads a color written as `2, r, g, b` or `5, index` from the front of
/// `values`; also says how many values it looked at.
pub fn parse_sgr_color(values: &Vec<u16>) -> (r: (Option<Color>, usize))
    ensures
        r.0 == extended_color(values@).0,
        r.1 == extended_color(values@).1,
        r.1 <= values.len(),
        r.1 <= 4,
{
    let n = values.len();
    if n == 0 {
        return (None, 0);
    }
    if values[0] == 2 {
        if n < 2 {
            (None, 1)
        } else if values[1] > 255 || n < 3 {
            (None, 2)
        } else if values[2] > 255 || n < 4 {
            (None, 3)
        } else if values[3] > 255 {
            (None, 4)
        } else {
            (Some(Color::Rgb(values[1] as u8, values[2] as u8, values[3] as u8)), 4)
        }
    } else if values[0] == 5 {
        if n < 2 {
            (None, 1)
        } else if values[1] > 255 {
            (None, 2)
        } else {
            (Some(Color::Indexed(values[1])), 2)
        }
    } else {
        (None, 1)
    }
}

/// The values of a color given in the sub-parameters `rest`.
fn collect_subparams(p: &Vec<u16>) -> (r: Vec<u16>)
    requires
        p.len() >= 2,
    ensures
        r@ == subparam_values(p@.subrange(1, p.len() as int)),
{
    let ghost rest = p@.subrange(1, p.len() as int);
    let mut values: Vec<u16> = Vec::new();
    values.push(p[1]);
    let start: usize = if p.len() - 1 > 4 {
        3
    } else {
        2
    };
    let mut i: usize = start;
    while i < p.len()
        invariant
            2 <= start <= i <= p.len(),
            start == (if p.len() - 1 > 4 {
                3usize
            } else {
                2usize
            }),
            rest == p@.subrange(1, p.len() as int),
            values@ == seq![rest[0]] + rest.subrange(start - 1, i - 1),
        decreases p.len() - i,
    {
        values.push(p[i]);
        i += 1;
    }
    proof {
        if rest.len() > 4 {
            assert(values@ =~= subparam_values(rest));
        } else {
            assert(values@ =~= rest);
        }
    }
    values
}

/// The pen change that the parameter `p` asks for by itself.
pub fn single_attr(p: &Vec<u16>) -> (r: Option<Attr>)
    ensures
        r == attr_of(p@),
{
    let len = p.len();
    if len == 0 {
        return None;
    }
    let n = p[0];
    if len == 1 {
        if n == 0 {
            Some(Attr::Reset)
        } else if n == 1 {
            Some(Attr::Bold)
        } else if n == 3 {
            Some(Attr::Italic)
        } else if n == 4 {
            Some(Attr::Underline)
        } else if n == 7 {
            Some(Attr::Reverse)
        } else if n == 8 {
            Some(Attr::Hidden)
        } else if n == 21 {
            Some(Attr::CancelBold)
        } else if n == 22 {
            Some(Attr::CancelBoldDim)
        } else if n == 23 {
            Some(Attr::CancelItalic)
        } else if n == 24 {
            Some(Attr::CancelUnderline)
        } else if n == 27 {
            Some(Attr::CancelReverse)
        } else if n == 28 {
            Some(Attr::CancelHidden)
        } else if 30 <= n && n <= 37 {
            Some(Attr::Foreground(Color::Indexed(n - 30)))
        } else if n == 39 {
            Some(Attr::Foreground(Color::Indexed(Color::FOREGROUND)))
        } else if 40 <= n && n <= 47 {
            Some(Attr::Background(Color::Indexed(n - 40)))
        } else if n == 49 {
            Some(Attr::Background(Color::Indexed(Color::BACKGROUND)))
        } else if 90 <= n && n <= 97 {
            Some(Attr::Foreground(Color::Indexed(n - 90 + 8)))
        } else if 100 <= n && n <= 107 {
            Some(Attr::Background(Color::Indexed(n - 100 + 8)))
        } else {
            None
        }
    } else if n == 4 {
        if len == 2 && p[1] == 0 {
            Some(Attr::CancelUnderline)
        } else {
            Some(Attr::Underline)
        }
    } else if n == 38 {
        let values = collect_subparams(p);
        match parse_sgr_color(&values).0 {
            Some(c) => Some(Attr::Foreground(c)),
            None => None,
        }
    } else if n == 48 {
        let values = collect_subparams(p);
        match parse_sgr_color(&values).0 {
            Some(c) => Some(Attr::Background(c)),
            None => None,
        }
    } else {
        None
    }
}

/// The first sub-parameters of up to four parameters from `from` on.
fn collect_window(params: &Vec<Vec<u16>>, from: usize) -> (r: Vec<u16>)
    requires
        from <= params.len(),
    ensures
        r@ == window(rows(params@), from as int),
{
    let mut values: Vec<u16> = Vec::new();
    let mut k: usize = 0;
    while k < 4 && k < params.len() - from
        invariant
            from <= params.len(),
            k <= 4,
            k <= params.len() - from,
            values@.len() == k,
            forall|j: int| 0 <= j < k ==> #[trigger] values@[j] == head(rows(params@)[from + j]),
        decreases 4 - k,
    {
        let p = &params[from + k];
        let v: u16 = if p.len() > 0 {
            p[0]
        } else {
            0
        };
        values.push(v);
        k += 1;
    }
    assert(values@ =~= window(rows(params@), from as int));
    values
}

/// The pen changes that the parameters of a `CSI ... m` sequence ask for, in
/// order. A bare 38 or 48 takes its color from the parameters that follow
/// it; a parameter that names nothing known is passed over.
pub fn attrs_from_sgr_parameters(params: &Vec<Vec<u16>>) -> (r: Vec<Attr>)
    ensures
        r@ == sgr_attrs(rows(params@), 0),
{
    let ghost all = rows(params@);
    let mut out: Vec<Attr> = Vec::new();
    let mut i: usize = 0;
    while i < params.len()
        invariant
            i <= params.len(),
            all == rows(params@),
            out@ + sgr_attrs(all, i as int) == sgr_attrs(all, 0),
        decreases params.len() - i,
    {
        let p = &params[i];
        assert(all[i as int] == p@);
        if p.len() == 1 && (p[0] == 38 || p[0] == 48) {
            let values = collect_window(params, i + 1);
            let (color, used) = parse_sgr_color(&values);
            let ghost before = out@;
            match color {
                Some(c) => {
                    if p[0] == 38 {
                        out.push(Attr::Foreground(c));
                    } else {
                        out.push(Attr::Background(c));
                    }
                },
                None => {},
            }
            assert(out@ + sgr_attrs(all, i + 1 + used) =~= before + sgr_attrs(all, i as int));
            i = i + 1 + used;
        } else {
            let ghost before = out@;
            match single_attr(p) {
                Some(a) => {
                    out.push(a);
                },
                None => {},
            }
            assert(out@ + sgr_attrs(all, i + 1) =~= before + sgr_attrs(all, i as int));
            i += 1;
        }
    }
    assert(sgr_attrs(all, i as int) =~= Seq::<Attr>::empty());
    assert(out@ =~= out@ + Seq::<Attr>::empty());
    out
}

} // verus!
