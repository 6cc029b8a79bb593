//! What the settings become.
use crate::config::{Config, EnvVars, MissingVar};
use crate::cors::{bytes_of, cors, sendable, CorsPolicy};
use crate::deps::{header_bytes, is_header_text};
use crate::text::{comma_list, parse_unsigned};
use vstd::prelude::*;
use vstd::utf8::encode_utf8;

verus! {

/// A number that is set and can be read is taken; otherwise the default is.
pub open spec fn is_number_or(
    set: Option<String>,
    read: Option<u64>,
    default: int,
    taken: int,
) -> bool {
    taken == if set is Some && read is Some {
        read->0 as int
    } else {
        default
    }
}

/// The database has to be named, and nothing else does. Every variable that is
/// set is taken as it is, but for an empty admin token, which counts as none,
/// and a number that cannot be read, which counts as not set.
pub proof fn the_settings_are_taken(
    vars: EnvVars,
    res: std::result::Result<Config, MissingVar>,
    origins: &str,
    list: Vec<String>,
    texts: (&str, &str, &str),
    max_yaml: Option<u64>,
    limit: Option<u64>,
    window: Option<u64>,
)
    requires
        call_ensures(Config::from_env, (vars,), res),
        origins@ == (if vars.cors_allow_origins is Some {
            vars.cors_allow_origins->0@
        } else {
            Seq::empty()
        }),
        call_ensures(comma_list, (origins,), list),
        vars.max_yaml_bytes matches Some(v) ==> texts.0@ == v@,
        call_ensures(parse_unsigned, (texts.0, usize::MAX as u64), max_yaml),
        vars.install_rate_limit matches Some(v) ==> texts.1@ == v@,
        call_ensures(parse_unsigned, (texts.1, u32::MAX as u64), limit),
        vars.install_rate_window_secs matches Some(v) ==> texts.2@ == v@,
        call_ensures(parse_unsigned, (texts.2, u64::MAX), window),
    ensures
        res is Ok <==> vars.database_url is Some,
        res matches Err(missing) ==> missing.0@ == "DATABASE_URL"@,
        res matches Ok(config) ==> {
            &&& config.database_url@ == vars.database_url->0@
            &&& config.bind@ == (if vars.bind_addr is Some {
                vars.bind_addr->0@
            } else {
                "0.0.0.0:8080"@
            })
            &&& config.cors_origins.deep_view() == list.deep_view()
            &&& config.admin_token is Some <==> vars.admin_token is Some
                && vars.admin_token->0@.len() > 0
            &&& config.admin_token is Some ==> config.admin_token->0@ == vars.admin_token->0@
            &&& is_number_or(
                vars.max_yaml_bytes,
                max_yaml,
                262_144,
                config.max_yaml_bytes as int,
            )
            &&& is_number_or(
                vars.install_rate_limit,
                limit,
                60,
                config.install_rate_limit as int,
            )
            &&& is_number_or(
                vars.install_rate_window_secs,
                window,
                60,
                config.install_rate_window_secs as int,
            )
        },
{
    if res is Ok {
        let config = res->Ok_0;
        assert(config.admin_token.deep_view() is Some <==> config.admin_token is Some);
    }
}

/// A missing variable is named, a copy of the settings is the same, and a body
/// may be 64 KiB larger than the document in it.
pub proof fn settings_are_kept(
    missing: MissingVar,
    message: String,
    config: Config,
    copy: Config,
    limit: usize,
)
    requires
        call_ensures(MissingVar::message, (&missing,), message),
        call_ensures(Config::clone, (&config,), copy),
        call_ensures(Config::body_limit, (&config,), limit),
    ensures
        message@ == missing.0@ + " is required"@,
        copy.database_url@ == config.database_url@,
        copy.bind@ == config.bind@,
        copy.cors_origins@ == config.cors_origins@,
        copy.admin_token == config.admin_token,
        copy.max_yaml_bytes == config.max_yaml_bytes,
        copy.install_rate_limit == config.install_rate_limit,
        copy.install_rate_window_secs == config.install_rate_window_secs,
        limit == config.max_yaml_bytes + 65_536,
{
}

proof fn lemma_sendable(origins: Seq<Seq<char>>)
    ensures
        sendable(origins) == origins.filter(|o: Seq<char>| is_header_text(o)).map_values(
            |o: Seq<char>| encode_utf8(o),
        ),
    decreases origins.len(),
{
    reveal(Seq::filter);
    let fits = |o: Seq<char>| is_header_text(o);
    let bytes = |o: Seq<char>| encode_utf8(o);
    if origins.len() > 0 {
        lemma_sendable(origins.drop_last());
    }
    assert(sendable(origins) =~= origins.filter(fits).map_values(bytes));
}

/// A browser may read from every configured origin that can be sent in a
/// header, in the order they are configured, and from no other. It may do no
/// more than read, and without such an origin it may not do that.
pub proof fn browsers_are_let_in(config: Config, res: Option<CorsPolicy>)
    requires
        call_ensures(cors, (&config,), res),
    ensures
        res is Some <==> exists|i: int|
            0 <= i < config.cors_origins@.len() && is_header_text(
                (#[trigger] config.cors_origins@[i])@,
            ),
        res matches Some(policy) ==> {
            let sent = config.cors_origins.deep_view().filter(|o: Seq<char>| is_header_text(o));
            &&& policy.origins@.len() == sent.len()
            &&& forall|i: int|
                0 <= i < sent.len() ==> header_bytes(#[trigger] policy.origins@[i]) == encode_utf8(
                    sent[i],
                )
            &&& policy.methods@ == seq!["GET", "HEAD"]
            &&& policy.headers@ == seq!["content-type"]
            &&& policy.max_age_secs == 3600
        },
{
    let all = config.cors_origins.deep_view();
    let fits = |o: Seq<char>| is_header_text(o);
    lemma_sendable(all);
    let sent = all.filter(fits);
    broadcast use vstd::seq_lib::group_filter_ensures;
    if res is Some {
        assert(sent.len() > 0);
        assert(fits(sent[0]));
        assert(sent.contains(sent[0]));
        all.lemma_filter_contains_rev(fits, sent[0]);
        let i = choose|i: int| 0 <= i < all.len() && all[i] == sent[0];
        assert(config.cors_origins@[i]@ == all[i]);
        let policy = res->0;
        assert(bytes_of(policy.origins@).len() == policy.origins@.len());
        assert forall|i: int| 0 <= i < sent.len() implies header_bytes(
            #[trigger] policy.origins@[i],
        ) == encode_utf8(sent[i]) by {
            assert(bytes_of(policy.origins@)[i] == header_bytes(policy.origins@[i]));
        }
        assert(policy.methods@ =~= seq!["GET", "HEAD"]);
        assert(policy.headers@ =~= seq!["content-type"]);
    }
    if exists|i: int|
        0 <= i < config.cors_origins@.len() && is_header_text(
            (#[trigger] config.cors_origins@[i])@,
        ) {
        let i = choose|i: int|
            0 <= i < config.cors_origins@.len() && is_header_text(
                (#[trigger] config.cors_origins@[i])@,
            );
        assert(all[i] == config.cors_origins@[i]@);
        assert(fits(all[i]));
        assert(sent.contains(all[i]));
    }
}

} // verus!
