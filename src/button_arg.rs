//! Lists of buttons handed to the registration calls, each marked as
//! meant directly or inverted ("not pressed").
use vstd::prelude::*;
use crate::button::Button;

verus! {

/// How a button in a `ButtonArg` is meant.
#[derive(Clone, Copy, Debug, PartialEq, Eq, Structural)]
pub enum ButtonArgElementTag {
    /// The button itself.
    Direct,
    /// The button's inversion: as a modifier, "must not be pressed".
    Inversion,
}

/// One button of a `ButtonArg`, with its tag.
#[derive(Clone, Copy, Debug, PartialEq, Eq, Structural)]
pub struct ButtonArgElement {
    pub tag: ButtonArgElementTag,
    pub button: Button,
}

impl ButtonArgElement {
    /// The button, meant directly.
    pub fn direct(button: Button) -> (r: ButtonArgElement)
        ensures
            r == (ButtonArgElement { tag: ButtonArgElementTag::Direct, button }),
    {
        ButtonArgElement { tag: ButtonArgElementTag::Direct, button }
    }

    /// The button, inverted.
    pub fn inversion(button: Button) -> (r: ButtonArgElement)
        ensures
            r == (ButtonArgElement { tag: ButtonArgElementTag::Inversion, button }),
    {
        ButtonArgElement { tag: ButtonArgElementTag::Inversion, button }
    }

    /// The same button with the other tag.
    pub open spec fn spec_invert(self) -> ButtonArgElement {
        ButtonArgElement {
            tag: match self.tag {
                ButtonArgElementTag::Direct => ButtonArgElementTag::Inversion,
                ButtonArgElementTag::Inversion => ButtonArgElementTag::Direct,
            },
            button: self.button,
        }
    }

    /// The same button with the other tag.
    pub fn invert(&self) -> (r: ButtonArgElement)
        ensures
            r == self.spec_invert(),
    {
        match self.tag {
            ButtonArgElementTag::Direct => ButtonArgElement::inversion(self.button),
            ButtonArgElementTag::Inversion => ButtonArgElement::direct(self.button),
        }
    }
}

/// The parts of a button list, joined in order.
pub open spec fn join_parts(parts: Seq<Seq<ButtonArgElement>>) -> Seq<ButtonArgElement>
    decreases parts.len(),
{
    if parts.len() == 0 {
        Seq::empty()
    } else {
        join_parts(parts.drop_last()) + parts.last()
    }
}

/// A list of buttons passed to a registration call.
#[derive(Clone, Debug, PartialEq, Eq)]
pub struct ButtonArg(Vec<ButtonArgElement>);

impl View for ButtonArg {
    type V = Seq<ButtonArgElement>;

    closed spec fn view(&self) -> Seq<ButtonArgElement> {
        self.0@
    }
}

impl ButtonArg {
    /// The list holding exactly `elements`, in order.
    pub fn new(elements: Vec<ButtonArgElement>) -> (r: ButtonArg)
        ensures
            r@ == elements@,
    {
        ButtonArg(elements)
    }

    /// The list holding the one button, meant directly.
    pub fn from_button(button: Button) -> (r: ButtonArg)
        ensures
            r@ == seq![ButtonArgElement { tag: ButtonArgElementTag::Direct, button }],
    {
        let mut v = Vec::new();
        v.push(ButtonArgElement::direct(button));
        ButtonArg(v)
    }

    /// The list made of the given parts, one after the other.
    pub fn from_expansions(parts: Vec<Vec<ButtonArgElement>>) -> (r: ButtonArg)
        ensures
            r@ == join_parts(parts@.map_values(|p: Vec<ButtonArgElement>| p@)),
    {
        let ghost views = parts@.map_values(|p: Vec<ButtonArgElement>| p@);
        let mut out: Vec<ButtonArgElement> = Vec::new();
        let mut i: usize = 0;
        while i < parts.len()
            invariant
                i <= parts@.len(),
                views == parts@.map_values(|p: Vec<ButtonArgElement>| p@),
                out@ == join_parts(views.take(i as int)),
            decreases parts@.len() - i,
        {
            let part = &parts[i];
            let ghost before = out@;
            let mut j: usize = 0;
            while j < part.len()
                invariant
                    i < parts@.len(),
                    part == parts@[i as int],
                    j <= part@.len(),
                    out@ == before + part@.take(j as int),
                decreases part@.len() - j,
            {
                out.push(part[j]);
                proof {
                    assert(part@.take(j + 1) == part@.take(j as int).push(part@[j as int]));
                }
                j = j + 1;
            }
            proof {
                assert(part@.take(j as int) == part@);
                assert(views.take(i + 1).drop_last() == views.take(i as int));
                assert(views.take(i + 1).last() == part@);
            }
            i = i + 1;
        }
        proof {
            assert(views.take(i as int) == views);
        }
        ButtonArg(out)
    }

    /// The elements, in order.
    pub fn iter(&self) -> (r: Vec<ButtonArgElement>)
        ensures
            r@ == self@,
    {
        let mut r: Vec<ButtonArgElement> = Vec::new();
        let mut i: usize = 0;
        while i < self.0.len()
            invariant
                i <= self.0@.len(),
                r@ == self.0@.take(i as int),
            decreases self.0@.len() - i,
        {
            r.push(self.0[i]);
            proof {
                assert(self.0@.take(i + 1) == self.0@.take(i as int).push(self.0@[i as int]));
            }
            i = i + 1;
        }
        proof {
            assert(self.0@.take(i as int) == self.0@);
        }
        r
    }

    /// The elements of this list followed by those of `other`.
    pub fn concat(&self, other: &ButtonArg) -> (r: ButtonArg)
        ensures
            r@ == self@ + other@,
    {
        let mut out = self.iter();
        let mut i: usize = 0;
        while i < other.0.len()
            invariant
                i <= other.0@.len(),
                out@ == self@ + other.0@.take(i as int),
            decreases other.0@.len() - i,
        {
            out.push(other.0[i]);
            proof {
                assert(other.0@.take(i + 1) == other.0@.take(i as int).push(other.0@[i as int]));
            }
            i = i + 1;
        }
        proof {
            assert(other.0@.take(i as int) == other.0@);
        }
        ButtonArg(out)
    }

    /// The number of elements.
    pub fn len(&self) -> (r: usize)
        ensures
            r == self@.len(),
    {
        self.0.len()
    }

    /// The element at position `i`.
    pub fn get(&self, i: usize) -> (r: ButtonArgElement)
        requires
            i < self@.len(),
        ensures
            r == self@[i as int],
    {
        self.0[i]
    }
}

/// Turns a button or a button list into the elements it stands for.
pub trait ExpandButtonArg: Sized {
    /// What `expand` returns, as a sequence.
    spec fn spec_expand(self) -> Seq<ButtonArgElement>;

    /// The elements this value stands for.
    fn expand(self) -> (r: Vec<ButtonArgElement>)
        ensures
            r@ == self.spec_expand(),
    ;

    /// The elements this value stands for, each inverted.
    fn expand_inverse(self) -> (r: Vec<ButtonArgElement>)
        ensures
            r@ == self.spec_expand().map_values(|e: ButtonArgElement| e.spec_invert()),
    {
        let v = self.expand();
        let ghost s = v@;
        let mut r: Vec<ButtonArgElement> = Vec::new();
        let mut i: usize = 0;
        while i < v.len()
            invariant
                s == v@,
                i <= v@.len(),
                r@ == v@.take(i as int).map_values(|e: ButtonArgElement| e.spec_invert()),
            decreases v@.len() - i,
        {
            r.push(v[i].invert());
            proof {
                assert(v@.take(i + 1) == v@.take(i as int).push(v@[i as int]));
                assert(r@ =~= v@.take(i + 1).map_values(|e: ButtonArgElement| e.spec_invert()));
            }
            i = i + 1;
        }
        proof {
            assert(v@.take(i as int) == v@);
        }
        r
    }
}

impl ExpandButtonArg for ButtonArg {
    open spec fn spec_expand(self) -> Seq<ButtonArgElement> {
        self@
    }

    fn expand(self) -> (r: Vec<ButtonArgElement>) {
        self.0
    }
}

impl ExpandButtonArg for Button {
    open spec fn spec_expand(self) -> Seq<ButtonArgElement> {
        seq![ButtonArgElement { tag: ButtonArgElementTag::Direct, button: self }]
    }

    fn expand(self) -> (r: Vec<ButtonArgElement>) {
        let mut v = Vec::new();
        v.push(ButtonArgElement::direct(self));
        v
    }
}

} // verus!
