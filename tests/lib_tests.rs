use interactions::discord::{is_zero, pokedex_definition, registry, set_true, Choice, Data, Interaction};
use interactions::dispatch::{authenticate, plan, reply, Plan, RequestError};
use interactions::hex::{decode_hex, HexError};
use interactions::pokemon::{PokeAPI, Pokemon, Sprites, Type, TypeSlot, PLACEHOLDER_IMAGE};
use interactions::signature::{message_to_verify, verify_request, AuthError, PublicKey};
use interactions::{check_status, Error, Interactions};
use sodiumoxide::crypto::sign;

#[test]
fn it_works() {
    assert_eq!(2 + 2, 4);
}

fn to_hex(bytes: &[u8]) -> String {
    let mut s = String::new();
    for b in bytes {
        s.push_str(&format!("{:02x}", b));
    }
    s
}

fn keys() -> (PublicKey, sign::SecretKey) {
    let _ = sodiumoxide::init();
    let (pk, sk) = sign::keypair_from_seed(&sign::Seed([7u8; 32]));
    (PublicKey::from_bytes(pk.as_ref().to_vec()).unwrap(), sk)
}

fn sign_hex(sk: &sign::SecretKey, timestamp: &str, body: &[u8]) -> String {
    let mut msg = timestamp.as_bytes().to_vec();
    msg.extend_from_slice(body);
    to_hex(sign::sign_detached(&msg, sk).as_ref())
}

fn sprites(front: Option<&str>) -> Sprites {
    Sprites {
        front_default: front.map(|s| s.to_string()),
        front_shiny: None,
        front_female: None,
        front_shiny_female: None,
        back_default: None,
        back_shiny: None,
        back_female: None,
        back_shiny_female: None,
    }
}

fn type_slot(slot: u8, name: &str) -> TypeSlot {
    TypeSlot { slot, typ: Type { name: name.to_string(), url: String::new() } }
}

fn pikachu(front: Option<&str>) -> Pokemon {
    Pokemon {
        name: "pikachu".to_string(),
        sprites: sprites(front),
        types: vec![type_slot(1, "electric")],
        height: 4,
        weight: 60,
    }
}

fn command(options: Vec<Choice>) -> Interaction {
    Interaction {
        typ: 2,
        data: Some(Data {
            id: "x".to_string(),
            name: "pokedex".to_string(),
            options,
            custom_id: String::new(),
            component_type: 0,
        }),
        ..Interaction::default()
    }
}

#[test]
fn decode_hex_reads_pairs() {
    assert_eq!(decode_hex("00ff10Ab").unwrap(), vec![0x00, 0xff, 0x10, 0xab]);
    assert_eq!(decode_hex("").unwrap(), Vec::<u8>::new());
}

#[test]
fn decode_hex_refuses_odd_length() {
    assert_eq!(decode_hex("abc"), Err(HexError::OddLength));
}

#[test]
fn decode_hex_refuses_non_hex() {
    assert_eq!(decode_hex("0g"), Err(HexError::InvalidDigit));
    assert_eq!(decode_hex("é"), Err(HexError::InvalidDigit));
    assert_eq!(decode_hex("é0"), Err(HexError::OddLength));
}

#[test]
fn public_key_needs_exact_length() {
    assert!(PublicKey::from_bytes(vec![0u8; 31]).is_none());
    assert!(PublicKey::from_bytes(vec![0u8; 32]).is_some());
}

#[test]
fn signed_message_is_timestamp_then_body() {
    assert_eq!(message_to_verify("123", b"{}"), b"123{}".to_vec());
}

#[test]
fn valid_signature_verifies() {
    let (pk, sk) = keys();
    let body = b"{\"type\":1}";
    let sig = sign_hex(&sk, "1700000000", body);
    assert_eq!(verify_request(body, &sig, "1700000000", &pk), Ok(()));
    assert_eq!(verify_request(b"", &sign_hex(&sk, "", b""), "", &pk), Ok(()));
}

#[test]
fn single_bit_mutations_fail() {
    let (pk, sk) = keys();
    let body = b"{\"type\":1}".to_vec();
    let ts = "1700000000";
    let sig = sign_hex(&sk, ts, &body);
    for i in 0..body.len() * 8 {
        let mut b = body.clone();
        b[i / 8] ^= 1 << (i % 8);
        assert_eq!(verify_request(&b, &sig, ts, &pk), Err(AuthError::SignatureInvalid));
    }
    let raw = decode_hex(&sig).unwrap();
    for i in 0..raw.len() * 8 {
        let mut s = raw.clone();
        s[i / 8] ^= 1 << (i % 8);
        assert_eq!(verify_request(&body, &to_hex(&s), ts, &pk), Err(AuthError::SignatureInvalid));
    }
    assert_eq!(verify_request(&body, &sig, "1700000001", &pk), Err(AuthError::SignatureInvalid));
}

#[test]
fn malformed_signature_is_encoding_error() {
    let (pk, sk) = keys();
    let sig = sign_hex(&sk, "1", b"x");
    assert_eq!(verify_request(b"x", &sig[1..], "1", &pk), Err(AuthError::BadSignatureEncoding));
    let mut bad = sig.clone();
    bad.replace_range(0..1, "z");
    assert_eq!(verify_request(b"x", &bad, "1", &pk), Err(AuthError::BadSignatureEncoding));
    assert_eq!(verify_request(b"x", &sig[2..], "1", &pk), Err(AuthError::BadSignatureEncoding));
    assert_eq!(verify_request(b"x", "", "1", &pk), Err(AuthError::BadSignatureEncoding));
}

#[test]
fn ping_yields_pong() {
    let msg = Interaction { typ: 1, token: "t".to_string(), data: command(vec![]).data, ..Interaction::default() };
    match plan(&msg) {
        Ok(Plan::Reply(r)) => {
            assert_eq!(r.typ, 1);
            assert!(r.data.is_none());
        }
        _ => panic!("a ping must be answered with a pong"),
    }
}

#[test]
fn command_without_data_is_client_error() {
    let msg = Interaction { typ: 2, ..Interaction::default() };
    let err = match plan(&msg) {
        Err(e) => e,
        Ok(_) => panic!("expected an error"),
    };
    assert!(matches!(err, RequestError::MissingData));
    assert_eq!(err.status(), 400);
    assert_eq!(err.message(), "no data given");
}

#[test]
fn command_without_options_is_distinct_client_error() {
    let err = match plan(&command(vec![])) {
        Err(e) => e,
        Ok(_) => panic!("expected an error"),
    };
    assert!(matches!(err, RequestError::MissingOption));
    assert_eq!(err.status(), 400);
    assert_eq!(err.message(), "no option given");
}

#[test]
fn command_looks_up_first_option() {
    let opts = vec![
        Choice { name: "pokemon".to_string(), value: "eevee".to_string() },
        Choice { name: "other".to_string(), value: "onix".to_string() },
    ];
    match plan(&command(opts)) {
        Ok(Plan::Lookup(name)) => assert_eq!(name, "eevee"),
        _ => panic!("expected a lookup"),
    }
}

#[test]
fn provider_failure_is_server_error() {
    let err = reply(Err("boom".to_string())).unwrap_err();
    assert!(matches!(err, RequestError::Provider(_)));
    assert_eq!(err.status(), 500);
    assert_eq!(err.message(), "boom");
}

#[test]
fn missing_sprite_uses_placeholder() {
    let p = pikachu(None);
    assert_eq!(p.front(), PLACEHOLDER_IMAGE);
    assert!(p.markdown().contains(
        "https://static.wikia.nocookie.net/pokemon-fano/images/6/6f/Poke_Ball.png"
    ));
    assert_eq!(pikachu(Some("http://img/p.png")).front(), "http://img/p.png");
}

#[test]
fn types_are_joined_without_trailing_comma() {
    let mut p = pikachu(None);
    p.types = vec![type_slot(1, "fire"), type_slot(2, "flying")];
    assert_eq!(p.types(), "fire, flying");
    p.types = vec![];
    assert_eq!(p.types(), "");
    p.types = vec![type_slot(1, "grass")];
    assert_eq!(p.types(), "grass");
}

#[test]
fn markdown_has_fixed_layout() {
    let p = pikachu(Some("http://img/p.png"));
    assert_eq!(
        p.markdown(),
        "![pikachu](http://img/p.png)\n```\nName:   pikachu\nTypes:  electric\nHeight: 4 decimeters\nWeight: 60 hectograms\n```\n"
    );
    let mut big = pikachu(None);
    big.height = 0;
    big.weight = u64::MAX;
    assert!(big.markdown().contains("Height: 0 decimeters\nWeight: 18446744073709551615 hectograms"));
}

#[test]
fn pokemon_url_is_percent_encoded() {
    let api = PokeAPI::new();
    assert_eq!(api.pokemon_url("pikachu"), "https://pokeapi.co/api/v2/pokemon/pikachu");
    assert_eq!(api.pokemon_url("mr. mime"), "https://pokeapi.co/api/v2/pokemon/mr.%20mime");
    assert_eq!(api.pokemon_url("a/b"), "https://pokeapi.co/api/v2/pokemon/a%2Fb");
    assert_eq!(
        PokeAPI::with_base("http://localhost:8000").pokemon_url("é"),
        "http://localhost:8000/pokemon/%C3%A9"
    );
}

#[test]
fn commands_endpoint_and_authorization() {
    let i = Interactions::new("g1", "a2", "tok");
    assert_eq!(i.commands_url(), "https://discord.com/api/applications/a2/guilds/g1/commands");
    assert_eq!(i.authorization(), "Bot tok");
}

#[test]
fn registry_holds_pokedex() {
    let r = registry();
    assert_eq!(r.len(), 1);
    assert_eq!(r[0].name, "pokedex");
    assert!(r[0].default_permissions);
    assert_eq!(r[0].options.len(), 1);
    assert_eq!(r[0].options[0].name, "pokemon");
    assert_eq!(r[0].options[0].typ, 3);
    assert!(r[0].options[0].required);
}

#[test]
fn status_check_and_messages() {
    assert!(check_status(200, "ok".to_string()).is_ok());
    assert!(check_status(204, String::new()).is_ok());
    let e = check_status(404, "not found".to_string()).unwrap_err();
    assert!(matches!(e, Error::Upstream(404, _)));
    assert_eq!(e.message(), "api error: get http error: 404 not found");
    assert_eq!(Error::Decode("x".to_string()).message(), "decode error: x");
    assert_eq!(Error::Internal("y".to_string()).message(), "internal error: y");
    assert_eq!(Error::API("z".to_string()).message(), "api error: z");
}

#[test]
fn small_helpers() {
    assert!(set_true());
    assert!(is_zero(&0));
    assert!(!is_zero(&-3));
}

#[test]
fn end_to_end_ping() {
    let (pk, sk) = keys();
    let body = b"{\"type\":1}";
    let sig = sign_hex(&sk, "42", body);
    assert!(authenticate(body, &sig, "42", &pk).is_ok());
    let msg = Interaction { typ: 1, ..Interaction::default() };
    match plan(&msg) {
        Ok(Plan::Reply(r)) => {
            assert_eq!(r.typ, 1);
            assert!(r.data.is_none());
        }
        _ => panic!("expected a pong"),
    }
}

#[test]
fn end_to_end_command() {
    let (pk, sk) = keys();
    let body = b"{\"type\":2,\"data\":{\"id\":\"x\",\"name\":\"pokedex\",\"options\":[{\"name\":\"pokemon\",\"value\":\"pikachu\"}]}}";
    let sig = sign_hex(&sk, "42", body);
    assert!(authenticate(body, &sig, "42", &pk).is_ok());
    let msg = command(vec![Choice { name: "pokemon".to_string(), value: "pikachu".to_string() }]);
    let name = match plan(&msg) {
        Ok(Plan::Lookup(name)) => name,
        _ => panic!("expected a lookup"),
    };
    assert_eq!(name, "pikachu");
    let r = reply(Ok(pikachu(None))).unwrap();
    assert_eq!(r.typ, 4);
    let data = r.data.unwrap();
    assert!(!data.tts);
    assert!(data.content.contains("pikachu"));
}

#[test]
fn end_to_end_invalid_signature() {
    let (pk, sk) = keys();
    let sig = sign_hex(&sk, "42", b"{\"type\":1}");
    for body in [&b"{\"type\":2}"[..], &b"not json"[..], &b""[..]] {
        let err = authenticate(body, &sig, "42", &pk).unwrap_err();
        assert_eq!(err.status(), 401);
        assert_eq!(err.message(), "unable to verify signature");
    }
    let err = authenticate(b"{\"type\":1}", "abc", "42", &pk).unwrap_err();
    assert_eq!(err.status(), 401);
}

#[test]
fn first_available_sprite_is_used() {
    let mut p = pikachu(None);
    p.sprites.front_shiny = Some("http://img/shiny.png".to_string());
    p.sprites.back_default = Some("http://img/back.png".to_string());
    assert_eq!(p.front(), "http://img/shiny.png");
    assert!(p.markdown().starts_with("![pikachu](http://img/shiny.png)"));
    p.sprites.front_shiny = None;
    assert_eq!(p.front(), "http://img/back.png");
    p.sprites.back_default = None;
    p.sprites.back_shiny_female = Some("http://img/last.png".to_string());
    assert_eq!(p.front(), "http://img/last.png");
    p.sprites.back_shiny_female = None;
    assert_eq!(p.front(), PLACEHOLDER_IMAGE);
}

#[test]
fn command_definition_clones() {
    let c = pokedex_definition();
    let d = c.clone();
    assert_eq!(d.name, "pokedex");
    assert_eq!(d.description, "Looks up a pokemon in the pokedex database.");
    assert!(d.default_permissions);
    let o = c.options[0].clone();
    assert_eq!(o.name, "pokemon");
    assert_eq!(o.description, "The name of the pokemon to look up.");
    assert_eq!(o.typ, 3);
    assert!(o.required);
}

#[test]
fn error_detail_has_no_kind() {
    let e = check_status(500, "oops".to_string()).unwrap_err();
    assert_eq!(e.detail(), "get http error: 500 oops");
    assert_eq!(Error::API("z".to_string()).detail(), "z");
}
