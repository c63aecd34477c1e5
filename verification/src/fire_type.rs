//! The closed enumeration of fire types.
//!
//! A fire type selects the palette's colour ramp, whether the palette is
//! regenerated every frame (the aurora-like type), and whether the seed row
//! is drawn at random from the hot half of the palette (the candy type).
//! Selection by name falls back to the default type on unknown names, and
//! the reserved name `"Random"` draws one variant uniformly.

use vstd::prelude::*;
use crate::rng::rand_below;

verus! {

#[derive(Clone, Copy, Debug, PartialEq, Eq, Structural)]
pub enum FireType {
    Original,
    Blue,
    Rainbow,
    Green,
    Purple,
    WhiteHot,
    White,
    Ice,
    Toxic,
    FireAndIce,
    ChemicalFire,
    Cyberpunk,
    Aurora,
    Plasma,
    Void,
    Candy,
}

impl FireType {
    /// The variant's name, used for the text-label overlay and for selection.
    pub open spec fn name_seq(self) -> Seq<char> {
        match self {
            FireType::Original => seq!['O', 'r', 'i', 'g', 'i', 'n', 'a', 'l'],
            FireType::Blue => seq!['B', 'l', 'u', 'e'],
            FireType::Rainbow => seq!['R', 'a', 'i', 'n', 'b', 'o', 'w'],
            FireType::Green => seq!['G', 'r', 'e', 'e', 'n'],
            FireType::Purple => seq!['P', 'u', 'r', 'p', 'l', 'e'],
            FireType::WhiteHot => seq!['W', 'h', 'i', 't', 'e', 'H', 'o', 't'],
            FireType::White => seq!['W', 'h', 'i', 't', 'e'],
            FireType::Ice => seq!['I', 'c', 'e'],
            FireType::Toxic => seq!['T', 'o', 'x', 'i', 'c'],
            FireType::FireAndIce => seq!['F', 'i', 'r', 'e', 'A', 'n', 'd', 'I', 'c', 'e'],
            FireType::ChemicalFire => seq![
                'C', 'h', 'e', 'm', 'i', 'c', 'a', 'l', 'F', 'i', 'r', 'e',
            ],
            FireType::Cyberpunk => seq!['C', 'y', 'b', 'e', 'r', 'p', 'u', 'n', 'k'],
            FireType::Aurora => seq!['A', 'u', 'r', 'o', 'r', 'a'],
            FireType::Plasma => seq!['P', 'l', 'a', 's', 'm', 'a'],
            FireType::Void => seq!['V', 'o', 'i', 'd'],
            FireType::Candy => seq!['C', 'a', 'n', 'd', 'y'],
        }
    }

    /// Whether the palette is regenerated each frame from the clock phase.
    pub open spec fn is_animated(self) -> bool {
        self == FireType::Aurora
    }

    /// Whether the seed row is drawn at random from the hot half of the
    /// palette instead of being set to the hottest index.
    pub open spec fn has_random_seed_row(self) -> bool {
        self == FireType::Candy
    }

    pub fn is_animated_exec(&self) -> (r: bool)
        ensures
            r == self.is_animated(),
    {
        match self {
            FireType::Aurora => true,
            _ => false,
        }
    }

    /// All variants, in declaration order.
    pub open spec fn all_seq() -> Seq<FireType> {
        seq![
            FireType::Original,
            FireType::Blue,
            FireType::Rainbow,
            FireType::Green,
            FireType::Purple,
            FireType::WhiteHot,
            FireType::White,
            FireType::Ice,
            FireType::Toxic,
            FireType::FireAndIce,
            FireType::ChemicalFire,
            FireType::Cyberpunk,
            FireType::Aurora,
            FireType::Plasma,
            FireType::Void,
            FireType::Candy,
        ]
    }

    pub fn all() -> (r: Vec<FireType>)
        ensures
            r@ == Self::all_seq(),
    {
        let mut v: Vec<FireType> = Vec::new();
        v.push(FireType::Original);
        v.push(FireType::Blue);
        v.push(FireType::Rainbow);
        v.push(FireType::Green);
        v.push(FireType::Purple);
        v.push(FireType::WhiteHot);
        v.push(FireType::White);
        v.push(FireType::Ice);
        v.push(FireType::Toxic);
        v.push(FireType::FireAndIce);
        v.push(FireType::ChemicalFire);
        v.push(FireType::Cyberpunk);
        v.push(FireType::Aurora);
        v.push(FireType::Plasma);
        v.push(FireType::Void);
        v.push(FireType::Candy);
        proof {
            assert(v@ =~= Self::all_seq());
        }
        v
    }

    pub fn name(&self) -> (r: &str)
        ensures
            r@ == self.name_seq(),
    {
        match self {
            FireType::Original => {
                proof {
                    reveal_strlit("Original");
                    assert("Original"@ =~= self.name_seq());
                }
                "Original"
            },
            FireType::Blue => {
                proof {
                    reveal_strlit("Blue");
                    assert("Blue"@ =~= self.name_seq());
                }
                "Blue"
            },
            FireType::Rainbow => {
                proof {
                    reveal_strlit("Rainbow");
                    assert("Rainbow"@ =~= self.name_seq());
                }
                "Rainbow"
            },
            FireType::Green => {
                proof {
                    reveal_strlit("Green");
                    assert("Green"@ =~= self.name_seq());
                }
                "Green"
            },
            FireType::Purple => {
                proof {
                    reveal_strlit("Purple");
                    assert("Purple"@ =~= self.name_seq());
                }
                "Purple"
            },
            FireType::WhiteHot => {
                proof {
                    reveal_strlit("WhiteHot");
                    assert("WhiteHot"@ =~= self.name_seq());
                }
                "WhiteHot"
            },
            FireType::White => {
                proof {
                    reveal_strlit("White");
                    assert("White"@ =~= self.name_seq());
                }
                "White"
            },
            FireType::Ice => {
                proof {
                    reveal_strlit("Ice");
                    assert("Ice"@ =~= self.name_seq());
                }
                "Ice"
            },
            FireType::Toxic => {
                proof {
                    reveal_strlit("Toxic");
                    assert("Toxic"@ =~= self.name_seq());
                }
                "Toxic"
            },
            FireType::FireAndIce => {
                proof {
                    reveal_strlit("FireAndIce");
                    assert("FireAndIce"@ =~= self.name_seq());
                }
                "FireAndIce"
            },
            FireType::ChemicalFire => {
                proof {
                    reveal_strlit("ChemicalFire");
                    assert("ChemicalFire"@ =~= self.name_seq());
                }
                "ChemicalFire"
            },
            FireType::Cyberpunk => {
                proof {
                    reveal_strlit("Cyberpunk");
                    assert("Cyberpunk"@ =~= self.name_seq());
                }
                "Cyberpunk"
            },
            FireType::Aurora => {
                proof {
                    reveal_strlit("Aurora");
                    assert("Aurora"@ =~= self.name_seq());
                }
                "Aurora"
            },
            FireType::Plasma => {
                proof {
                    reveal_strlit("Plasma");
                    assert("Plasma"@ =~= self.name_seq());
                }
                "Plasma"
            },
            FireType::Void => {
                proof {
                    reveal_strlit("Void");
                    assert("Void"@ =~= self.name_seq());
                }
                "Void"
            },
            FireType::Candy => {
                proof {
                    reveal_strlit("Candy");
                    assert("Candy"@ =~= self.name_seq());
                }
                "Candy"
            },
        }
    }
}

/// What a recognized, non-reserved name selects: the variant of that name,
/// or the default type for anything else.
pub open spec fn parse_fire_type(name: Seq<char>) -> FireType {
    if name == FireType::Blue.name_seq() {
        FireType::Blue
    } else if name == FireType::Rainbow.name_seq() {
        FireType::Rainbow
    } else if name == FireType::Green.name_seq() {
        FireType::Green
    } else if name == FireType::Purple.name_seq() {
        FireType::Purple
    } else if name == FireType::WhiteHot.name_seq() {
        FireType::WhiteHot
    } else if name == FireType::White.name_seq() {
        FireType::White
    } else if name == FireType::Ice.name_seq() {
        FireType::Ice
    } else if name == FireType::Toxic.name_seq() {
        FireType::Toxic
    } else if name == FireType::FireAndIce.name_seq() {
        FireType::FireAndIce
    } else if name == FireType::ChemicalFire.name_seq() {
        FireType::ChemicalFire
    } else if name == FireType::Cyberpunk.name_seq() {
        FireType::Cyberpunk
    } else if name == FireType::Aurora.name_seq() {
        FireType::Aurora
    } else if name == FireType::Plasma.name_seq() {
        FireType::Plasma
    } else if name == FireType::Void.name_seq() {
        FireType::Void
    } else if name == FireType::Candy.name_seq() {
        FireType::Candy
    } else {
        FireType::Original
    }
}

/// Character-by-character string comparison, so that selection by name can
/// be specified over the strings' views.
fn str_eq(a: &str, b: &str) -> (r: bool)
    ensures
        r == (a@ == b@),
{
    let alen = a.unicode_len();
    let blen = b.unicode_len();
    if alen != blen {
        return false;
    }
    let mut i: usize = 0;
    while i < alen
        invariant
            i <= alen,
            alen == a@.len(),
            alen == b@.len(),
            forall|j: int| 0 <= j < i ==> a@[j] == b@[j],
        decreases alen - i,
    {
        if a.get_char(i) != b.get_char(i) {
            return false;
        }
        i += 1;
    }
    proof {
        assert(a@ =~= b@);
    }
    true
}

impl FireType {
    /// Select a fire type by name. An absent or unrecognized name degrades
    /// to the default type; the reserved name `"Random"` draws one variant
    /// uniformly from the enumeration.
    pub fn from_name(name: Option<&str>) -> (r: FireType)
        ensures
            name is None ==> r == FireType::Original,
            name matches Some(s) ==> (s@ == "Random"@ || r == parse_fire_type(s@)),
    {
        proof {
            reveal_strlit("Blue");
            reveal_strlit("Rainbow");
            reveal_strlit("Green");
            reveal_strlit("Purple");
            reveal_strlit("WhiteHot");
            reveal_strlit("White");
            reveal_strlit("Ice");
            reveal_strlit("Toxic");
            reveal_strlit("FireAndIce");
            reveal_strlit("ChemicalFire");
            reveal_strlit("Cyberpunk");
            reveal_strlit("Aurora");
            reveal_strlit("Plasma");
            reveal_strlit("Void");
            reveal_strlit("Candy");
            assert("Blue"@ =~= FireType::Blue.name_seq());
            assert("Rainbow"@ =~= FireType::Rainbow.name_seq());
            assert("Green"@ =~= FireType::Green.name_seq());
            assert("Purple"@ =~= FireType::Purple.name_seq());
            assert("WhiteHot"@ =~= FireType::WhiteHot.name_seq());
            assert("White"@ =~= FireType::White.name_seq());
            assert("Ice"@ =~= FireType::Ice.name_seq());
            assert("Toxic"@ =~= FireType::Toxic.name_seq());
            assert("FireAndIce"@ =~= FireType::FireAndIce.name_seq());
            assert("ChemicalFire"@ =~= FireType::ChemicalFire.name_seq());
            assert("Cyberpunk"@ =~= FireType::Cyberpunk.name_seq());
            assert("Aurora"@ =~= FireType::Aurora.name_seq());
            assert("Plasma"@ =~= FireType::Plasma.name_seq());
            assert("Void"@ =~= FireType::Void.name_seq());
            assert("Candy"@ =~= FireType::Candy.name_seq());
        }
        match name {
            None => FireType::Original,
            Some(s) => {
                if str_eq(s, "Blue") {
                    FireType::Blue
                } else if str_eq(s, "Rainbow") {
                    FireType::Rainbow
                } else if str_eq(s, "Green") {
                    FireType::Green
                } else if str_eq(s, "Purple") {
                    FireType::Purple
                } else if str_eq(s, "WhiteHot") {
                    FireType::WhiteHot
                } else if str_eq(s, "White") {
                    FireType::White
                } else if str_eq(s, "Ice") {
                    FireType::Ice
                } else if str_eq(s, "Toxic") {
                    FireType::Toxic
                } else if str_eq(s, "FireAndIce") {
                    FireType::FireAndIce
                } else if str_eq(s, "ChemicalFire") {
                    FireType::ChemicalFire
                } else if str_eq(s, "Cyberpunk") {
                    FireType::Cyberpunk
                } else if str_eq(s, "Aurora") {
                    FireType::Aurora
                } else if str_eq(s, "Plasma") {
                    FireType::Plasma
                } else if str_eq(s, "Void") {
                    FireType::Void
                } else if str_eq(s, "Candy") {
                    FireType::Candy
                } else if str_eq(s, "Random") {
                    let variants = FireType::all();
                    let idx = rand_below(16);
                    variants[idx as usize]
                } else {
                    FireType::Original
                }
            },
        }
    }
}

} // verus!
