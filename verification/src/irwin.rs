//! The read-only incident-reporting query client: configuration, the
//! query parameter model with its builder, and the exact request strings
//! the client sends — WHERE clauses, form-encoded token-request fields,
//! and the query string itself. The HTTP transport lives with the caller.

use vstd::prelude::*;
use vstd::string::*;
use crate::strutil::{dec_rep, u64_to_dec};

verus! {

/// Configuration of the incident client. The timeout is kept in
/// milliseconds.
#[derive(Debug)]
pub struct IrwinConfig {
    pub base_url: String,
    pub username: String,
    pub password: String,
    pub referer: String,
    pub timeout_ms: u64,
}

/// The default request timeout.
pub open spec fn default_timeout_ms() -> u64 {
    30000
}

impl IrwinConfig {
    /// A configuration with the default timeout.
    pub fn new(base_url: String, username: String, password: String, referer: String) -> (r: Self)
        ensures
            r.base_url == base_url,
            r.username == username,
            r.password == password,
            r.referer == referer,
            r.timeout_ms == default_timeout_ms(),
    {
        IrwinConfig { base_url, username, password, referer, timeout_ms: 30000 }
    }

    /// A configuration with a custom timeout.
    pub fn with_timeout(
        base_url: String,
        username: String,
        password: String,
        referer: String,
        timeout_ms: u64,
    ) -> (r: Self)
        ensures
            r.base_url == base_url,
            r.username == username,
            r.password == password,
            r.referer == referer,
            r.timeout_ms == timeout_ms,
    {
        IrwinConfig { base_url, username, password, referer, timeout_ms }
    }
}

/// Query parameters for incident queries.
#[derive(Debug)]
pub struct IncidentQuery {
    pub where_clause: Option<String>,
    pub out_fields: Option<String>,
    pub return_geometry: Option<String>,
    pub include_ads_status: bool,
    pub include_resources: bool,
    pub include_relationships: bool,
    pub include_last_sync_date_time: bool,
    pub include_ffr: bool,
}

/// Builder for `IncidentQuery`.
#[derive(Debug)]
pub struct IncidentQueryBuilder {
    pub where_clause: Option<String>,
    pub out_fields: Option<String>,
    pub return_geometry: Option<String>,
    pub include_ads_status: bool,
    pub include_resources: bool,
    pub include_relationships: bool,
    pub include_last_sync_date_time: bool,
    pub include_ffr: bool,
}

impl IncidentQueryBuilder {
    /// A builder with nothing set.
    pub fn new() -> (r: Self)
        ensures
            r.where_clause is None,
            r.out_fields is None,
            r.return_geometry is None,
            !r.include_ads_status,
            !r.include_resources,
            !r.include_relationships,
            !r.include_last_sync_date_time,
            !r.include_ffr,
    {
        IncidentQueryBuilder {
            where_clause: None,
            out_fields: None,
            return_geometry: None,
            include_ads_status: false,
            include_resources: false,
            include_relationships: false,
            include_last_sync_date_time: false,
            include_ffr: false,
        }
    }

    /// Sets the WHERE clause.
    pub fn where_clause(self, where_clause: &str) -> (r: Self)
        ensures
            r == (Self { where_clause: r.where_clause, ..self }),
            r.where_clause matches Some(w) && w@ == where_clause@,
    {
        Self { where_clause: Some(where_clause.to_owned()), ..self }
    }

    /// Sets the output field list.
    pub fn out_fields(self, out_fields: &str) -> (r: Self)
        ensures
            r == (Self { out_fields: r.out_fields, ..self }),
            r.out_fields matches Some(o) && o@ == out_fields@,
    {
        Self { out_fields: Some(out_fields.to_owned()), ..self }
    }

    /// Sets whether geometry is returned.
    pub fn return_geometry(self, return_geometry: &str) -> (r: Self)
        ensures
            r == (Self { return_geometry: r.return_geometry, ..self }),
            r.return_geometry matches Some(g) && g@ == return_geometry@,
    {
        Self { return_geometry: Some(return_geometry.to_owned()), ..self }
    }

    /// Sets whether ADS status is included.
    pub fn include_ads_status(self, flag: bool) -> (r: Self)
        ensures
            r == (Self { include_ads_status: flag, ..self }),
    {
        Self { include_ads_status: flag, ..self }
    }

    /// Sets whether resources are included.
    pub fn include_resources(self, flag: bool) -> (r: Self)
        ensures
            r == (Self { include_resources: flag, ..self }),
    {
        Self { include_resources: flag, ..self }
    }

    /// Sets whether relationships are included.
    pub fn include_relationships(self, flag: bool) -> (r: Self)
        ensures
            r == (Self { include_relationships: flag, ..self }),
    {
        Self { include_relationships: flag, ..self }
    }

    /// Sets whether the last sync time is included.
    pub fn include_last_sync_date_time(self, flag: bool) -> (r: Self)
        ensures
            r == (Self { include_last_sync_date_time: flag, ..self }),
    {
        Self { include_last_sync_date_time: flag, ..self }
    }

    /// Sets whether fire funding requests are included.
    pub fn include_ffr(self, flag: bool) -> (r: Self)
        ensures
            r == (Self { include_ffr: flag, ..self }),
    {
        Self { include_ffr: flag, ..self }
    }

    /// Builds the query.
    pub fn build(self) -> (r: IncidentQuery)
        ensures
            r.where_clause == self.where_clause,
            r.out_fields == self.out_fields,
            r.return_geometry == self.return_geometry,
            r.include_ads_status == self.include_ads_status,
            r.include_resources == self.include_resources,
            r.include_relationships == self.include_relationships,
            r.include_last_sync_date_time == self.include_last_sync_date_time,
            r.include_ffr == self.include_ffr,
    {
        IncidentQuery {
            where_clause: self.where_clause,
            out_fields: self.out_fields,
            return_geometry: self.return_geometry,
            include_ads_status: self.include_ads_status,
            include_resources: self.include_resources,
            include_relationships: self.include_relationships,
            include_last_sync_date_time: self.include_last_sync_date_time,
            include_ffr: self.include_ffr,
        }
    }
}

impl Default for IncidentQueryBuilder {
    /// Same as `new`: a builder with nothing set.
    fn default() -> (r: Self)
        ensures
            r.where_clause is None,
            r.out_fields is None,
            r.return_geometry is None,
            !r.include_ads_status,
            !r.include_resources,
            !r.include_relationships,
            !r.include_last_sync_date_time,
            !r.include_ffr,
    {
        Self::new()
    }
}

/// The views of a key-value pair list.
pub open spec fn pairs_view(s: Seq<(String, String)>) -> Seq<(Seq<char>, Seq<char>)> {
    s.map_values(|p: (String, String)| (p.0@, p.1@))
}

/// The ordered request parameters of an incident query: the format field
/// first, then each set field under its wire name, then each requested
/// extension flag.
pub open spec fn incident_query_params_spec(q: IncidentQuery) -> Seq<(Seq<char>, Seq<char>)> {
    seq![("f"@, "json"@)] + (match &q.where_clause {
        Some(w) => seq![("where"@, w@)],
        None => Seq::empty(),
    }) + (match &q.out_fields {
        Some(o) => seq![("outFields"@, o@)],
        None => Seq::empty(),
    }) + (match &q.return_geometry {
        Some(g) => seq![("returnGeometry"@, g@)],
        None => Seq::empty(),
    }) + (if q.include_ads_status {
        seq![("includeADSStatus"@, "true"@)]
    } else {
        Seq::empty()
    }) + (if q.include_resources {
        seq![("includeResources"@, "true"@)]
    } else {
        Seq::empty()
    }) + (if q.include_relationships {
        seq![("includeRelationships"@, "true"@)]
    } else {
        Seq::empty()
    }) + (if q.include_last_sync_date_time {
        seq![("includeLastSyncDateTime"@, "true"@)]
    } else {
        Seq::empty()
    }) + (if q.include_ffr {
        seq![("includeFFR"@, "true"@)]
    } else {
        Seq::empty()
    })
}

/// Assembles the request parameters of a query, in wire order. The
/// authentication token, which depends on the transport, is appended by
/// the caller.
#[verifier::rlimit(100)]
pub fn incident_query_params(q: &IncidentQuery) -> (r: Vec<(String, String)>)
    ensures
        pairs_view(r@) == incident_query_params_spec(*q),
{
    let ghost p1 = seq![("f"@, "json"@)];
    let ghost p2 = p1 + (match &q.where_clause {
        Some(w) => seq![("where"@, w@)],
        None => Seq::<(Seq<char>, Seq<char>)>::empty(),
    });
    let ghost p3 = p2 + (match &q.out_fields {
        Some(o) => seq![("outFields"@, o@)],
        None => Seq::<(Seq<char>, Seq<char>)>::empty(),
    });
    let ghost p4 = p3 + (match &q.return_geometry {
        Some(g) => seq![("returnGeometry"@, g@)],
        None => Seq::<(Seq<char>, Seq<char>)>::empty(),
    });
    let ghost p5 = p4 + (if q.include_ads_status {
        seq![("includeADSStatus"@, "true"@)]
    } else {
        Seq::<(Seq<char>, Seq<char>)>::empty()
    });
    let ghost p6 = p5 + (if q.include_resources {
        seq![("includeResources"@, "true"@)]
    } else {
        Seq::<(Seq<char>, Seq<char>)>::empty()
    });
    let ghost p7 = p6 + (if q.include_relationships {
        seq![("includeRelationships"@, "true"@)]
    } else {
        Seq::<(Seq<char>, Seq<char>)>::empty()
    });
    let ghost p8 = p7 + (if q.include_last_sync_date_time {
        seq![("includeLastSyncDateTime"@, "true"@)]
    } else {
        Seq::<(Seq<char>, Seq<char>)>::empty()
    });
    let ghost p9 = p8 + (if q.include_ffr {
        seq![("includeFFR"@, "true"@)]
    } else {
        Seq::<(Seq<char>, Seq<char>)>::empty()
    });
    let mut params: Vec<(String, String)> = Vec::new();
    params.push((String::from_str("f"), String::from_str("json")));
    proof {
        assert(pairs_view(params@) =~= p1);
    }
    match &q.where_clause {
        Some(w) => {
            params.push((String::from_str("where"), w.clone()));
            proof {
                assert(pairs_view(params@) =~= p2);
            }
        },
        None => {
            proof {
                assert(pairs_view(params@) =~= p2);
            }
        },
    }
    match &q.out_fields {
        Some(o) => {
            params.push((String::from_str("outFields"), o.clone()));
            proof {
                assert(pairs_view(params@) =~= p3);
            }
        },
        None => {
            proof {
                assert(pairs_view(params@) =~= p3);
            }
        },
    }
    match &q.return_geometry {
        Some(geo) => {
            params.push((String::from_str("returnGeometry"), geo.clone()));
            proof {
                assert(pairs_view(params@) =~= p4);
            }
        },
        None => {
            proof {
                assert(pairs_view(params@) =~= p4);
            }
        },
    }
    if q.include_ads_status {
        params.push((String::from_str("includeADSStatus"), String::from_str("true")));
    }
    proof {
        assert(pairs_view(params@) =~= p5);
    }
    if q.include_resources {
        params.push((String::from_str("includeResources"), String::from_str("true")));
    }
    proof {
        assert(pairs_view(params@) =~= p6);
    }
    if q.include_relationships {
        params.push((String::from_str("includeRelationships"), String::from_str("true")));
    }
    proof {
        assert(pairs_view(params@) =~= p7);
    }
    if q.include_last_sync_date_time {
        params.push((String::from_str("includeLastSyncDateTime"), String::from_str("true")));
    }
    proof {
        assert(pairs_view(params@) =~= p8);
    }
    if q.include_ffr {
        params.push((String::from_str("includeFFR"), String::from_str("true")));
    }
    proof {
        assert(pairs_view(params@) =~= p9);
        assert(p9 == incident_query_params_spec(*q));
    }
    params
}

/// The form fields of a token-generation request.
pub open spec fn token_request_params_spec(config: IrwinConfig) -> Seq<(Seq<char>, Seq<char>)> {
    seq![
        ("username"@, config.username@),
        ("password"@, config.password@),
        ("client"@, "referer"@),
        ("referer"@, config.referer@),
        ("expiration"@, "60"@),
        ("f"@, "json"@),
    ]
}

/// Assembles the form fields of a token-generation request.
pub fn token_request_params(config: &IrwinConfig) -> (r: Vec<(String, String)>)
    ensures
        pairs_view(r@) == token_request_params_spec(*config),
{
    let mut params: Vec<(String, String)> = Vec::new();
    params.push((String::from_str("username"), config.username.clone()));
    params.push((String::from_str("password"), config.password.clone()));
    params.push((String::from_str("client"), String::from_str("referer")));
    params.push((String::from_str("referer"), config.referer.clone()));
    params.push((String::from_str("expiration"), String::from_str("60")));
    params.push((String::from_str("f"), String::from_str("json")));
    proof {
        assert(pairs_view(params@) =~= token_request_params_spec(*config));
    }
    params
}

/// The plain (unencoded) query string of a parameter list, joined with
/// `=` and `&`.
pub open spec fn query_string_spec(params: Seq<(String, String)>) -> Seq<char>
    decreases params.len(),
{
    if params.len() == 0 {
        Seq::empty()
    } else if params.len() == 1 {
        params[0].0@ + "="@ + params[0].1@
    } else {
        query_string_spec(params.drop_last()) + "&"@ + params.last().0@ + "="@ + params.last().1@
    }
}

/// Joins parameters into a query string, without encoding, exactly as
/// the incident service expects them.
pub fn query_string(params: &Vec<(String, String)>) -> (r: String)
    ensures
        r@ == query_string_spec(params@),
{
    let mut s = String::new();
    let n = params.len();
    let mut i: usize = 0;
    while i < n
        invariant
            0 <= i <= n,
            n == params@.len(),
            s@ == query_string_spec(params@.take(i as int)),
        decreases n - i,
    {
        let ghost prefix = params@.take(i as int);
        if i > 0 {
            s.append("&");
        }
        s.append(params[i].0.as_str());
        s.append("=");
        s.append(params[i].1.as_str());
        proof {
            let next = params@.take(i + 1);
            assert(next.drop_last() =~= prefix);
            assert(next.last() == params@[i as int]);
        }
        i += 1;
    }
    proof {
        assert(params@.take(n as int) =~= params@);
    }
    s
}

/// A comma-joined identifier list.
pub open spec fn comma_join(ids: Seq<String>) -> Seq<char>
    decreases ids.len(),
{
    if ids.len() == 0 {
        Seq::empty()
    } else if ids.len() == 1 {
        ids[0]@
    } else {
        comma_join(ids.drop_last()) + ","@ + ids.last()@
    }
}

fn join_with_comma(ids: &Vec<String>) -> (r: String)
    ensures
        r@ == comma_join(ids@),
{
    let mut s = String::new();
    let n = ids.len();
    let mut i: usize = 0;
    while i < n
        invariant
            0 <= i <= n,
            n == ids@.len(),
            s@ == comma_join(ids@.take(i as int)),
        decreases n - i,
    {
        let ghost prefix = ids@.take(i as int);
        if i > 0 {
            s.append(",");
        }
        s.append(ids[i].as_str());
        proof {
            let next = ids@.take(i + 1);
            assert(next.drop_last() =~= prefix);
            assert(next.last() == ids@[i as int]);
        }
        i += 1;
    }
    proof {
        assert(ids@.take(n as int) =~= ids@);
    }
    s
}

/// The WHERE clause selecting incidents by identifier list.
pub open spec fn in_clause_spec(field: Seq<char>, ids: Seq<String>) -> Seq<char> {
    field + " IN ("@ + comma_join(ids) + ")"@
}

/// Builds the WHERE clause that selects incidents by IRWIN identifiers.
pub fn irwin_ids_where_clause(ids: &Vec<String>) -> (r: String)
    ensures
        r@ == in_clause_spec("IrwinID"@, ids@),
{
    let mut s = String::new();
    s.append("IrwinID");
    s.append(" IN (");
    let joined = join_with_comma(ids);
    s.append(joined.as_str());
    s.append(")");
    s
}

/// Builds the WHERE clause that selects incidents by unique fire
/// identifiers.
pub fn fire_ids_where_clause(ids: &Vec<String>) -> (r: String)
    ensures
        r@ == in_clause_spec("UniqueFireIdentifier"@, ids@),
{
    let mut s = String::new();
    s.append("UniqueFireIdentifier");
    s.append(" IN (");
    let joined = join_with_comma(ids);
    s.append(joined.as_str());
    s.append(")");
    s
}

/// The WHERE clause selecting incidents modified at or after a timestamp.
pub open spec fn sync_since_spec(timestamp: u64) -> Seq<char> {
    "ModifiedOnDateTime >= "@ + dec_rep(timestamp as nat)
}

/// Builds the WHERE clause of an incremental sync.
pub fn sync_since_where_clause(timestamp: u64) -> (r: String)
    ensures
        r@ == sync_since_spec(timestamp),
{
    let mut s = String::new();
    s.append("ModifiedOnDateTime >= ");
    let d = u64_to_dec(timestamp);
    s.append(d.as_str());
    s
}

} // verus!
