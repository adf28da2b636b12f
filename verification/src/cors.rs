//! Which origins, methods and headers other sites may use the server with.
use crate::text::same_text;
use actix_cors::Cors;
use vstd::prelude::*;
use vstd::string::*;

verus! {

/// `actix_cors::Cors`, the policy that the server enforces.
#[verifier::external_type_specification]
#[verifier::external_body]
pub struct ExCors(actix_cors::Cors);

/// What a policy says.
#[verifier::ext_equal]
pub struct CorsSettings {
    /// The origins that are allowed, where not all of them are.
    pub origins: Option<Set<Seq<char>>>,
    pub methods: Set<Seq<char>>,
    /// The names of the request headers that are allowed, where not all of them are.
    pub headers: Option<Set<Seq<char>>>,
    pub exposes_all_headers: bool,
    pub supports_credentials: bool,
    /// For how many seconds an answer may be kept.
    pub max_age: Option<nat>,
    /// A setting was refused. A server with such a policy does not start.
    pub is_broken: bool,
}

/// What an `actix_cors::Cors` says.
pub uninterp spec fn settings(cors: Cors) -> CorsSettings;

/// Whether `actix_web::http::Uri` can be made of the text.
pub uninterp spec fn is_uri(text: Seq<char>) -> bool;

/// The methods that `actix_cors` knows.
pub open spec fn all_methods() -> Set<Seq<char>> {
    set![
        "GET"@,
        "POST"@,
        "PUT"@,
        "DELETE"@,
        "HEAD"@,
        "OPTIONS"@,
        "CONNECT"@,
        "PATCH"@,
        "TRACE"@,
    ]
}

/// Everything is allowed.
pub open spec fn permissive_settings() -> CorsSettings {
    CorsSettings {
        origins: None,
        methods: all_methods(),
        headers: None,
        exposes_all_headers: true,
        supports_credentials: true,
        max_age: Some(3600),
        is_broken: false,
    }
}

/// The set with the text in it. A set that held everything holds only the text then.
pub open spec fn narrowed(allowed: Option<Set<Seq<char>>>, text: Seq<char>) -> Option<
    Set<Seq<char>>,
> {
    match allowed {
        Some(texts) => Some(texts.insert(text)),
        None => Some(Set::empty().insert(text)),
    }
}

/// Whether the text can name an origin: it is a URI, and not a wildcard.
pub open spec fn is_origin(text: Seq<char>) -> bool {
    is_uri(text) && text != "*"@
}

/// What a policy says once an origin is added.
pub open spec fn with_origin(policy: CorsSettings, origin: Seq<char>) -> CorsSettings {
    if policy.is_broken {
        policy
    } else if is_origin(origin) {
        CorsSettings { origins: narrowed(policy.origins, origin), ..policy }
    } else {
        CorsSettings { is_broken: true, ..policy }
    }
}

/// What a policy says once a request header is added.
pub open spec fn with_header(policy: CorsSettings, header: Seq<char>) -> CorsSettings {
    if policy.is_broken {
        policy
    } else {
        CorsSettings { headers: narrowed(policy.headers, header), ..policy }
    }
}

/// What a policy says once request headers are added, one after the other.
pub open spec fn with_headers(policy: CorsSettings, headers: Seq<&str>) -> CorsSettings
    decreases headers.len(),
{
    if headers.len() == 0 {
        policy
    } else {
        with_header(with_headers(policy, headers.drop_last()), headers.last()@)
    }
}

/// Whether the character may stand in the value of a header.
pub open spec fn is_header_char(c: char) -> bool {
    c == '\t' || (c >= ' ' && c != '\u{7f}')
}

/// Whether the text may be the value of a header.
pub open spec fn is_header_value(text: Seq<char>) -> bool {
    forall|i: int| 0 <= i < text.len() ==> is_header_char(#[trigger] text[i])
}

/// Whether the text is the name of a method: capital letters.
pub open spec fn is_method_name(text: Seq<char>) -> bool {
    text.len() > 0 && forall|i: int| 0 <= i < text.len() ==> 'A' <= #[trigger] text[i] <= 'Z'
}

/// Whether the text is the name of a header in small letters, of at most 64 characters.
pub open spec fn is_header_name(text: Seq<char>) -> bool {
    &&& 0 < text.len() <= 64
    &&& forall|i: int|
        0 <= i < text.len() ==> ('a' <= #[trigger] text[i] <= 'z' || text[i] == '-')
}

/// `Uri::try_from` of a text, from `actix_web::http`: whether it succeeds.
#[verifier::external_body]
fn is_uri_text(text: &str) -> (valid: bool)
    ensures
        valid == is_uri(text@),
{
    actix_web::http::Uri::try_from(text).is_ok()
}

/// `Cors::permissive`: everything is allowed, credentials too, and an answer may be kept for
/// an hour.
#[verifier::external_body]
fn permissive() -> (cors: Cors)
    ensures
        settings(cors) == permissive_settings(),
{
    Cors::permissive()
}

/// `Cors::allowed_origin`: adds an origin. What is no URI, and the wildcard, breaks the
/// policy, and a policy that is broken already stays as it is. Added to one that is not, a URI
/// that is not the value of a header makes it panic.
#[verifier::external_body]
fn allowed_origin(cors: Cors, origin: &str) -> (later: Cors)
    requires
        !settings(cors).is_broken && is_uri(origin@) ==> is_header_value(origin@),
    ensures
        settings(later) == with_origin(settings(cors), origin@),
{
    cors.allowed_origin(origin)
}

/// `Cors::allowed_methods`: adds the methods to those that are allowed already.
#[verifier::external_body]
fn allowed_methods(cors: Cors, methods: Vec<&'static str>) -> (later: Cors)
    requires
        forall|i: int| 0 <= i < methods@.len() ==> is_method_name(#[trigger] methods@[i]@),
    ensures
        settings(later) == (if settings(cors).is_broken {
            settings(cors)
        } else {
            CorsSettings {
                methods: settings(cors).methods.union(
                    Set::new(
                        |method: Seq<char>|
                            exists|i: int|
                                0 <= i < methods@.len() && #[trigger] methods@[i]@ == method,
                    ),
                ),
                ..settings(cors)
            }
        }),
{
    cors.allowed_methods(methods)
}

/// `Cors::allowed_headers`: adds the request headers, one after the other. The first header
/// that is added to a policy that allows all leaves only itself.
#[verifier::external_body]
fn allowed_headers(cors: Cors, headers: Vec<&'static str>) -> (later: Cors)
    requires
        forall|i: int| 0 <= i < headers@.len() ==> is_header_name(#[trigger] headers@[i]@),
    ensures
        settings(later) == with_headers(settings(cors), headers@),
{
    cors.allowed_headers(headers)
}

/// `Cors::allowed_header`: adds a request header. Added to a policy that allows all, it leaves
/// only itself.
#[verifier::external_body]
fn allowed_header(cors: Cors, header: &str) -> (later: Cors)
    requires
        is_header_name(header@),
    ensures
        settings(later) == with_header(settings(cors), header@),
{
    cors.allowed_header(header)
}

/// `Cors::max_age`: sets for how many seconds an answer may be kept.
#[verifier::external_body]
fn max_age(cors: Cors, seconds: usize) -> (later: Cors)
    ensures
        settings(later) == (if settings(cors).is_broken {
            settings(cors)
        } else {
            CorsSettings { max_age: Some(seconds as nat), ..settings(cors) }
        }),
{
    cors.max_age(seconds)
}

/// Whether the list is the wildcard alone.
pub open spec fn is_wildcard(origins: Seq<String>) -> bool {
    origins.len() == 1 && origins[0]@ == "*"@
}

/// The texts of the list.
pub open spec fn texts(origins: Seq<String>) -> Set<Seq<char>> {
    Set::new(
        |text: Seq<char>|
            exists|i: int| 0 <= i < origins.len() && #[trigger] origins[i]@ == text,
    )
}

/// Whether each of the origins can be named.
pub open spec fn are_origins(origins: Seq<String>) -> bool {
    forall|i: int| 0 <= i < origins.len() ==> is_origin(#[trigger] origins[i]@)
}

/// Whether a policy can be made of the list: up to the first entry that is no origin, which
/// breaks the policy, no entry is a URI that is not the value of a header.
pub open spec fn can_be_held(origins: Seq<String>) -> bool {
    forall|i: int|
        0 <= i < origins.len() && are_origins(origins.take(i)) ==> (is_uri(
            #[trigger] origins[i]@,
        ) ==> is_header_value(origins[i]@))
}

/// The policy of a server for a list of origins: those of the list are allowed, and all of
/// them where it is the wildcard or empty.
pub open spec fn server_settings(origins: Seq<String>) -> CorsSettings {
    CorsSettings {
        origins: if is_wildcard(origins) || origins.len() == 0 {
            None
        } else {
            Some(texts(origins))
        },
        methods: all_methods(),
        headers: Some(set!["authorization"@, "accept"@, "content-type"@]),
        exposes_all_headers: true,
        supports_credentials: true,
        max_age: Some(3600),
        is_broken: false,
    }
}

/// One more entry leaves a list one of origins where the entry is one.
proof fn lemma_are_origins_of_longer(origins: Seq<String>, i: int)
    requires
        0 <= i < origins.len(),
    ensures
        are_origins(origins.take(i + 1)) <==> are_origins(origins.take(i)) && is_origin(
            origins[i]@,
        ),
{
    let before = origins.take(i);
    let after = origins.take(i + 1);
    assert(after[i] == origins[i]);
    assert(forall|j: int| 0 <= j < i ==> before[j] == #[trigger] after[j]);
    assert(forall|j: int| 0 <= j < i ==> #[trigger] before[j] == after[j]);
}

/// The policy of a server for a list of origins.
pub fn get_cors(cors_allowed_origins: &Vec<String>) -> (cors: Cors)
    requires
        can_be_held(cors_allowed_origins@),
    ensures
        settings(cors).is_broken <==> !is_wildcard(cors_allowed_origins@) && !are_origins(
            cors_allowed_origins@,
        ),
        !settings(cors).is_broken ==> settings(cors) == server_settings(cors_allowed_origins@),
{
    let mut cors = permissive();
    if !(cors_allowed_origins.len() == 1 && same_text(&cors_allowed_origins[0], "*")) {
        let mut i: usize = 0;
        while i < cors_allowed_origins.len()
            invariant
                i <= cors_allowed_origins@.len(),
                can_be_held(cors_allowed_origins@),
                settings(cors).is_broken <==> !are_origins(cors_allowed_origins@.take(i as int)),
                !settings(cors).is_broken ==> settings(cors) == (CorsSettings {
                    origins: if i == 0 {
                        None
                    } else {
                        Some(texts(cors_allowed_origins@.take(i as int)))
                    },
                    ..permissive_settings()
                }),
            decreases cors_allowed_origins@.len() - i,
        {
            let ghost before = cors_allowed_origins@.take(i as int);
            let ghost after = cors_allowed_origins@.take(i + 1);
            cors = allowed_origin(cors, cors_allowed_origins[i].as_str());
            i = i + 1;
            proof {
                lemma_are_origins_of_longer(cors_allowed_origins@, i - 1);
                assert(texts(after) =~= texts(before).insert(cors_allowed_origins@[i - 1]@)) by {
                    assert(after[i - 1] == cors_allowed_origins@[i - 1]);
                    assert(forall|j: int|
                        0 <= j < before.len() ==> before[j] == #[trigger] after[j]);
                    assert(forall|j: int|
                        0 <= j < before.len() ==> #[trigger] before[j] == after[j]);
                }
                assert(before.len() == 0 ==> texts(before) =~= Set::empty());
            }
        }
        assert(cors_allowed_origins@.take(i as int) =~= cors_allowed_origins@);
    }
    let mut methods: Vec<&'static str> = Vec::new();
    methods.push("GET");
    methods.push("POST");
    let mut headers: Vec<&'static str> = Vec::new();
    headers.push("authorization");
    headers.push("accept");
    proof {
        reveal_strlit("GET");
        reveal_strlit("POST");
        reveal_strlit("authorization");
        reveal_strlit("accept");
        reveal_strlit("content-type");
        reveal_with_fuel(with_headers, 3);
        assert(headers@.drop_last().drop_last().len() == 0);
        assert(headers@.drop_last().last() == "authorization");
    }
    let cors = allowed_methods(cors, methods);
    proof {
        assert(!settings(cors).is_broken ==> settings(cors).methods =~= all_methods());
    }
    let cors = allowed_headers(cors, headers);
    let cors = allowed_header(cors, "content-type");
    let cors = max_age(cors, 3600);
    proof {
        assert(!settings(cors).is_broken ==> settings(cors).headers->0
            =~= set!["authorization"@, "accept"@, "content-type"@]);
    }
    cors
}

/// Whether the text may be the value of a header.
fn may_be_header_value(text: &str) -> (may: bool)
    ensures
        may == is_header_value(text@),
{
    let len: usize = text.unicode_len();
    let mut i: usize = 0;
    while i < len
        invariant
            i <= len == text@.len(),
            forall|j: int| 0 <= j < i ==> is_header_char(#[trigger] text@[j]),
        decreases len - i,
    {
        let c: char = text.get_char(i);
        if !(c == '\t' || (c >= ' ' && c != '\u{7f}')) {
            return false;
        }
        i = i + 1;
    }
    true
}

/// The policy of a server for a list of origins, unless none can be made of it: an entry is a
/// URI that is not the value of a header, and no entry before it breaks the policy.
pub fn checked_cors(cors_allowed_origins: &Vec<String>) -> (cors: Option<Cors>)
    ensures
        cors is Some <==> can_be_held(cors_allowed_origins@),
        cors matches Some(cors) ==> (settings(cors).is_broken <==> !is_wildcard(
            cors_allowed_origins@,
        ) && !are_origins(cors_allowed_origins@)),
        cors matches Some(cors) ==> (!settings(cors).is_broken ==> settings(cors)
            == server_settings(cors_allowed_origins@)),
{
    let mut i: usize = 0;
    let mut broken: bool = false;
    while i < cors_allowed_origins.len() && !broken
        invariant
            i <= cors_allowed_origins@.len(),
            broken <==> !are_origins(cors_allowed_origins@.take(i as int)),
            forall|j: int|
                0 <= j < i && are_origins(cors_allowed_origins@.take(j)) ==> (is_uri(
                    #[trigger] cors_allowed_origins@[j]@,
                ) ==> is_header_value(cors_allowed_origins@[j]@)),
        decreases cors_allowed_origins@.len() - i,
    {
        let origin: &String = &cors_allowed_origins[i];
        let uri: bool = is_uri_text(origin.as_str());
        if uri && !may_be_header_value(origin.as_str()) {
            assert(is_uri(cors_allowed_origins@[i as int]@));
            return None;
        }
        broken = !uri || same_text(origin, "*");
        proof {
            lemma_are_origins_of_longer(cors_allowed_origins@, i as int);
        }
        i = i + 1;
    }
    proof {
        assert forall|j: int|
            0 <= j < cors_allowed_origins@.len() && are_origins(cors_allowed_origins@.take(j))
                && is_uri(#[trigger] cors_allowed_origins@[j]@) implies is_header_value(
            cors_allowed_origins@[j]@,
        ) by {
            if j >= i {
                assert(forall|k: int|
                    0 <= k < i ==> cors_allowed_origins@.take(i as int)[k]
                        == #[trigger] cors_allowed_origins@.take(j)[k]);
            }
        }
    }
    Some(get_cors(cors_allowed_origins))
}

/// The policy that is made of a list of origins. It is broken exactly where an entry is no
/// origin, save for the wildcard alone. Otherwise an origin is allowed exactly where it is
/// listed, or where the list is empty or the wildcard; three request headers are allowed and no
/// other; and answers may be kept for an hour.
pub proof fn law_listed_origins_are_allowed(
    origins: Vec<String>,
    cors: Cors,
    checked: Option<Cors>,
)
    requires
        can_be_held(origins@),
        call_ensures(get_cors, (&origins,), cors),
        call_ensures(checked_cors, (&origins,), checked),
    ensures
        checked matches Some(same) ==> settings(same).is_broken == settings(cors).is_broken,
        checked matches Some(same) ==> (!settings(cors).is_broken ==> settings(same) == settings(
            cors,
        )),
        checked is Some,
        settings(cors).is_broken <==> !(origins@.len() == 1 && origins@[0]@ == "*"@) && exists|
            i: int,
        | 0 <= i < origins@.len() && (origins@[i]@ == "*"@ || !is_uri(#[trigger] origins@[i]@)),
        !settings(cors).is_broken ==> {
            &&& settings(cors).origins is None <==> origins@.len() == 0 || (origins@.len() == 1
                && origins@[0]@ == "*"@)
            &&& settings(cors).origins matches Some(allowed) ==> forall|origin: Seq<char>|
                allowed.contains(origin) <==> exists|i: int|
                    0 <= i < origins@.len() && #[trigger] origins@[i]@ == origin
            &&& settings(cors).headers matches Some(allowed) && forall|header: Seq<char>|
                allowed.contains(header) <==> (header == "authorization"@ || header == "accept"@
                    || header == "content-type"@)
            &&& settings(cors).methods.contains("GET"@)
            &&& settings(cors).methods.contains("POST"@)
            &&& settings(cors).supports_credentials
            &&& settings(cors).exposes_all_headers
            &&& settings(cors).max_age == Some(3600nat)
        },
{
    if settings(cors).is_broken {
        let i = choose|i: int| 0 <= i < origins@.len() && !is_origin(#[trigger] origins@[i]@);
        assert(origins@[i]@ == "*"@ || !is_uri(origins@[i]@));
    }
}

/// A text may be the value of a header exactly where it holds no control character but the tab.
pub proof fn law_header_values_hold_no_control_characters(text: Seq<char>)
    ensures
        is_header_value(text) <==> forall|i: int|
            0 <= i < text.len() ==> (#[trigger] text[i]) as int == 9 || ((text[i]) as int >= 32
                && (text[i]) as int != 127),
{
    assert forall|i: int| 0 <= i < text.len() implies (is_header_char(#[trigger] text[i]) <==> (
    text[i] as int == 9 || (text[i] as int >= 32 && text[i] as int != 127))) by {}
}

/// Whether a policy can be made of a list depends on each entry in turn: one more entry stands in
/// the way only where it is a URI that is not the value of a header and no entry before it has
/// broken the policy already.
pub proof fn law_one_more_origin(origins: Seq<String>, origin: String)
    ensures
        can_be_held(Seq::<String>::empty()),
        can_be_held(origins.push(origin)) <==> can_be_held(origins) && !(is_uri(origin@)
            && !is_header_value(origin@) && forall|i: int|
            0 <= i < origins.len() ==> is_uri(#[trigger] origins[i]@) && origins[i]@ != "*"@),
{
    let longer = origins.push(origin);
    assert forall|i: int| 0 <= i <= origins.len() implies #[trigger] longer.take(i)
        =~= origins.take(i) by {}
    assert(origins.take(origins.len() as int) =~= origins);
    assert(are_origins(origins) <==> forall|i: int|
        0 <= i < origins.len() ==> is_uri(#[trigger] origins[i]@) && origins[i]@ != "*"@);
    assert(longer[origins.len() as int] == origin);
    assert(forall|i: int| 0 <= i < origins.len() ==> longer[i] == #[trigger] origins[i]);
    assert(forall|i: int| 0 <= i < origins.len() ==> #[trigger] longer[i] == origins[i]);
}

} // verus!
