//! Records of the pokemon data provider, and their rendering as markdown.

use vstd::prelude::*;
use vstd::string::StringSliceAdditionalSpecFns;

use crate::text::{decimal, joined, percent_encoded, push_decimal, push_percent_encoded};

verus! {

/// A pokemon type.
#[derive(Clone, Debug)]
pub struct Type {
    pub name: String,
    pub url: String,
}

/// A type in one of a pokemon's type slots.
#[derive(Clone, Debug)]
pub struct TypeSlot {
    pub slot: u8,
    pub typ: Type,
}

/// The image URLs of a pokemon; any may be missing.
#[derive(Clone, Debug)]
pub struct Sprites {
    pub front_default: Option<String>,
    pub front_shiny: Option<String>,
    pub front_female: Option<String>,
    pub front_shiny_female: Option<String>,
    pub back_default: Option<String>,
    pub back_shiny: Option<String>,
    pub back_female: Option<String>,
    pub back_shiny_female: Option<String>,
}

/// The record of one pokemon.
#[derive(Clone, Debug)]
pub struct Pokemon {
    pub name: String,
    pub sprites: Sprites,
    pub types: Vec<TypeSlot>,
    /// Height in decimeters.
    pub height: u64,
    /// Weight in hectograms.
    pub weight: u64,
}

/// The image shown when a record has no front sprite.
pub const PLACEHOLDER_IMAGE: &'static str = "https://static.wikia.nocookie.net/pokemon-fano/images/6/6f/Poke_Ball.png";

/// The names of a record's types, in the order received.
pub open spec fn type_names(p: Pokemon) -> Seq<Seq<char>> {
    Seq::new(p.types@.len(), |i: int| p.types@[i].typ.name@)
}

/// The type names joined by ", ".
pub open spec fn types_text(p: Pokemon) -> Seq<char> {
    joined(type_names(p), ", "@)
}

/// The sprites of a record in order of preference: the four front images,
/// then the four back images.
pub open spec fn sprite_list(s: Sprites) -> Seq<Option<String>> {
    seq![
        s.front_default,
        s.front_shiny,
        s.front_female,
        s.front_shiny_female,
        s.back_default,
        s.back_shiny,
        s.back_female,
        s.back_shiny_female,
    ]
}

/// The first URL present in `urls`, if any.
pub open spec fn first_present(urls: Seq<Option<String>>) -> Option<Seq<char>>
    decreases urls.len(),
{
    if urls.len() == 0 {
        None
    } else {
        match urls[0] {
            Some(url) => Some(url@),
            None => first_present(urls.drop_first()),
        }
    }
}

/// A list with no URL present has no first one.
proof fn lemma_none_present(urls: Seq<Option<String>>)
    requires
        forall|i: int| 0 <= i < urls.len() ==> #[trigger] urls[i] is None,
    ensures
        first_present(urls) is None,
    decreases urls.len(),
{
    if urls.len() > 0 {
        assert(urls[0] is None);
        let rest = urls.drop_first();
        assert forall|i: int| 0 <= i < rest.len() implies #[trigger] rest[i] is None by {
            assert(rest[i] == urls[i + 1]);
        }
        lemma_none_present(rest);
    }
}

/// The first available sprite URL, or the placeholder image when the record
/// has no sprite at all.
pub open spec fn front_image(p: Pokemon) -> Seq<char> {
    match first_present(sprite_list(p.sprites)) {
        Some(url) => url,
        None => PLACEHOLDER_IMAGE@,
    }
}

/// The markdown block that describes a record.
pub open spec fn markdown_text(p: Pokemon) -> Seq<char> {
    "!["@ + p.name@ + "]("@ + front_image(p) + ")\n```\nName:   "@ + p.name@ + "\nTypes:  "@
        + types_text(p) + "\nHeight: "@ + decimal(p.height as nat) + " decimeters\nWeight: "@
        + decimal(p.weight as nat) + " hectograms\n```\n"@
}

/// A record with no sprite at all is rendered with the placeholder image: its
/// URL stands right after the opening `![name](`.
pub proof fn lemma_placeholder_rendered(p: Pokemon)
    requires
        forall|i: int| 0 <= i < sprite_list(p.sprites).len() ==> #[trigger] sprite_list(p.sprites)[i] is None,
    ensures
        ({
            let k = "!["@.len() + p.name@.len() + "]("@.len();
            markdown_text(p).subrange(k as int, (k + PLACEHOLDER_IMAGE@.len()) as int) == PLACEHOLDER_IMAGE@
        }),
{
    lemma_none_present(sprite_list(p.sprites));
    let head = "!["@ + p.name@ + "]("@;
    let rest = ")\n```\nName:   "@ + p.name@ + "\nTypes:  "@ + types_text(p) + "\nHeight: "@
        + decimal(p.height as nat) + " decimeters\nWeight: "@ + decimal(p.weight as nat)
        + " hectograms\n```\n"@;
    assert(markdown_text(p) =~= head + PLACEHOLDER_IMAGE@ + rest);
    assert((head + PLACEHOLDER_IMAGE@ + rest).subrange(head.len() as int, (head.len() + PLACEHOLDER_IMAGE@.len()) as int)
        =~= PLACEHOLDER_IMAGE@);
}

impl Pokemon {
    /// The record as a markdown block: its image, then a code block with its
    /// name, types, height and weight.
    pub fn markdown(&self) -> (r: String)
        ensures
            r@ == markdown_text(*self),
    {
        let mut r = String::from_str("![");
        r.append(self.name.as_str());
        r.append("](");
        let front = self.front();
        r.append(front.as_str());
        r.append(")\n```\nName:   ");
        r.append(self.name.as_str());
        r.append("\nTypes:  ");
        let types = self.types();
        r.append(types.as_str());
        r.append("\nHeight: ");
        push_decimal(&mut r, self.height);
        r.append(" decimeters\nWeight: ");
        push_decimal(&mut r, self.weight);
        r.append(" hectograms\n```\n");
        r
    }

    /// The names of the record's types, in the order received, joined by
    /// ", " with no trailing separator.
    pub fn types(&self) -> (r: String)
        ensures
            r@ == types_text(*self),
    {
        let ghost names = type_names(*self);
        let mut r = String::new();
        let mut i: usize = 0;
        while i < self.types.len()
            invariant
                i <= self.types@.len(),
                names == type_names(*self),
                r@ == joined(names.subrange(0, i as int), ", "@),
            decreases self.types@.len() - i,
        {
            if i > 0 {
                r.append(", ");
            }
            r.append(self.types[i].typ.name.as_str());
            assert(names.subrange(0, i + 1).drop_last() =~= names.subrange(0, i as int));
            i = i + 1;
        }
        assert(names.subrange(0, names.len() as int) =~= names);
        r
    }

    /// The first available sprite URL (front images before back images),
    /// or the placeholder image when the record has no sprite at all.
    pub fn front(&self) -> (r: String)
        ensures
            r@ == front_image(*self),
    {
        let ghost urls = sprite_list(self.sprites);
        let candidates: [&Option<String>; 8] = [
            &self.sprites.front_default,
            &self.sprites.front_shiny,
            &self.sprites.front_female,
            &self.sprites.front_shiny_female,
            &self.sprites.back_default,
            &self.sprites.back_shiny,
            &self.sprites.back_female,
            &self.sprites.back_shiny_female,
        ];
        assert(urls.subrange(0, 8) =~= urls);
        let mut i: usize = 0;
        while i < 8
            invariant
                i <= 8,
                urls == sprite_list(self.sprites),
                forall|k: int| 0 <= k < 8 ==> *#[trigger] candidates@[k] == urls[k],
                first_present(urls) == first_present(urls.subrange(i as int, 8)),
            decreases 8 - i,
        {
            assert(urls.subrange(i as int, 8).drop_first() =~= urls.subrange(i + 1, 8));
            match candidates[i] {
                Some(url) => {
                    return url.clone();
                },
                None => {},
            }
            i = i + 1;
        }
        assert(urls.subrange(8, 8).len() == 0);
        String::from_str(PLACEHOLDER_IMAGE)
    }
}

/// The default address of the data provider's REST API.
pub const POKE_API: &'static str = "https://pokeapi.co/api/v2";

/// Where the records of the data provider are looked up.
pub struct PokeAPI {
    base: String,
}

impl PokeAPI {
    /// The base address of the REST API.
    pub closed spec fn base(&self) -> Seq<char> {
        self.base@
    }

    /// A client of the data provider at its usual address.
    pub fn new() -> (r: Self)
        ensures
            r.base() == POKE_API@,
    {
        PokeAPI { base: String::from_str(POKE_API) }
    }

    /// A client of a data provider at another address (no trailing `/`).
    pub fn with_base(base: &str) -> (r: Self)
        ensures
            r.base() == base@,
    {
        PokeAPI { base: String::from_str(base) }
    }

    /// The address of the record of the pokemon `name`: the base, then
    /// `/pokemon/`, then the name percent-encoded.
    pub fn pokemon_url(&self, name: &str) -> (r: String)
        ensures
            r@ == self.base() + "/pokemon/"@ + percent_encoded(name.spec_bytes()),
    {
        let mut r = self.base.clone();
        r.append("/pokemon/");
        push_percent_encoded(&mut r, name);
        r
    }
}

} // verus!
