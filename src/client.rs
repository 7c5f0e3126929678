use vstd::prelude::*;

use crate::tags::{concat_str, views_of};

verus! {

pub const STATSD_HOST_ENV: &'static str = "STATSD_HOST";

pub const STATSD_PORT_ENV: &'static str = "STATSD_PORT";

/// Address the client sends from.
pub const DEFAULT_ORIGIN: &'static str = "0.0.0.0:0";

pub const DEFAULT_HOST: &'static str = "0.0.0.0";

/// Port 8125 (UDP) is for metrics.
pub const DEFAULT_PORT: &'static str = "8125";

pub open spec fn opt_view(v: Option<&str>) -> Option<Seq<char>> {
    match v {
        Some(s) => Some(s@),
        None => None,
    }
}

/// `prefix` followed by `value`, where there is a value.
pub open spec fn tag_if(prefix: Seq<char>, value: Option<Seq<char>>) -> Seq<Seq<char>> {
    match value {
        Some(v) => seq![prefix + v],
        None => Seq::empty(),
    }
}

/// The process-wide tags, from the deployment's environment, service and
/// version (the values of `DD_ENV`, `DD_VERSION` and `DD_SERVICE`), each
/// where it is set, in that order.
pub fn get_default_tags(env: Option<&str>, version: Option<&str>, service: Option<&str>) -> (r: Vec<
    String,
>)
    ensures
        views_of(r@) == tag_if("env:"@, opt_view(env)) + tag_if("version:"@, opt_view(version))
            + tag_if("service:"@, opt_view(service)),
{
    proof {
        reveal_strlit("env:");
        reveal_strlit("version:");
        reveal_strlit("service:");
    }
    let mut tags: Vec<String> = Vec::new();
    if let Some(e) = env {
        tags.push(concat_str("env:", e));
    }
    let ghost after_env = tags@;
    if let Some(v) = version {
        tags.push(concat_str("version:", v));
    }
    let ghost after_version = tags@;
    if let Some(s) = service {
        tags.push(concat_str("service:", s));
    }
    assert(views_of(after_env) =~= tag_if("env:"@, opt_view(env)));
    assert(views_of(after_version) =~= tag_if("env:"@, opt_view(env)) + tag_if(
        "version:"@,
        opt_view(version),
    ));
    assert(views_of(tags@) =~= tag_if("env:"@, opt_view(env)) + tag_if(
        "version:"@,
        opt_view(version),
    ) + tag_if("service:"@, opt_view(service)));
    tags
}

/// The agent's address, `host:port`, from the values of `STATSD_HOST` and
/// `STATSD_PORT`, each defaulted where unset.
pub fn statsd_target(host: Option<&str>, port: Option<&str>) -> (r: String)
    ensures
        r@ == (match host {
            Some(h) => h@,
            None => DEFAULT_HOST@,
        }) + ":"@ + (match port {
            Some(p) => p@,
            None => DEFAULT_PORT@,
        }),
{
    let h = match host {
        Some(h) => h,
        None => DEFAULT_HOST,
    };
    let p = match port {
        Some(p) => p,
        None => DEFAULT_PORT,
    };
    let with_colon = concat_str(h, ":");
    concat_str(with_colon.as_str(), p)
}

} // verus!
