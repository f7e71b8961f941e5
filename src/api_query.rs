//! A request as handed to the request layer above the message stream.
#![allow(non_snake_case)]
use vstd::prelude::*;

verus! {

/// Names of the services a request can address.
#[derive(Clone, Copy, Debug, PartialEq, Eq, Structural)]
pub enum ApiQueryTypeName {
    Sql,
    Python,
    Executable,
    Unknown,
}

/// The service that a request addresses, given which service members it
/// holds: none gives `Unknown`, two or more fail with `MultiService`.
pub open spec fn query_type_name(sql: bool, python: bool, executable: bool) -> Result<ApiQueryTypeName, ApiQueryError> {
    if (sql && python) || (sql && executable) || (python && executable) {
        Err(ApiQueryError::MultiService)
    } else if sql {
        Ok(ApiQueryTypeName::Sql)
    } else if python {
        Ok(ApiQueryTypeName::Python)
    } else if executable {
        Ok(ApiQueryTypeName::Executable)
    } else {
        Ok(ApiQueryTypeName::Unknown)
    }
}

/// Why a request could not be interpreted.
#[derive(Clone, Copy, Debug, PartialEq, Eq, Structural)]
pub enum ApiQueryError {
    /// The bytes are not a JSON document.
    InvalidJson,
    /// The document is not a JSON object.
    NotAnObject,
    /// `authToken` or `id` is missing or not a string.
    MissingField,
    /// The request addresses more than one service.
    MultiService,
}

/// What a request asks for: one service, with the JSON text of its
/// member, or the reason it could not be interpreted.
#[derive(Debug, PartialEq, Eq)]
pub enum ApiQueryType {
    Sql(String),
    Python(String),
    Executable(String),
    Error(ApiQueryError),
    Unknown,
}

impl ApiQueryType {
    /// A copy of this value.
    pub fn copy(&self) -> (r: ApiQueryType)
        ensures
            r == *self,
    {
        match self {
            ApiQueryType::Sql(s) => ApiQueryType::Sql(s.clone()),
            ApiQueryType::Python(s) => ApiQueryType::Python(s.clone()),
            ApiQueryType::Executable(s) => ApiQueryType::Executable(s.clone()),
            ApiQueryType::Error(e) => ApiQueryType::Error(*e),
            ApiQueryType::Unknown => ApiQueryType::Unknown,
        }
    }
}

/// The text that stands for a missing `authToken` or `id`.
pub open spec fn unknown_text() -> Seq<char> {
    seq!['U', 'n', 'k', 'n', 'o', 'w', 'n']
}

/// A fresh `Unknown`.
fn unknown() -> (r: String)
    ensures
        r@ == unknown_text(),
{
    let s = "Unknown".to_owned();
    proof {
        reveal_strlit("Unknown");
    }
    assert(s@ =~= unknown_text());
    s
}

impl Clone for ApiQueryType {
    fn clone(&self) -> (r: ApiQueryType) {
        self.copy()
    }
}

/// The decimal digits of `b`, as ASCII bytes, without leading zeros.
pub open spec fn decimal(b: u8) -> Seq<u8> {
    if b < 10 {
        seq![(48 + b) as u8]
    } else if b < 100 {
        seq![(48 + b / 10) as u8, (48 + b % 10) as u8]
    } else {
        seq![(48 + b / 100) as u8, (48 + (b / 10) % 10) as u8, (48 + b % 10) as u8]
    }
}

/// `bytes` written as ASCII text: each byte in decimal, separated by commas.
pub open spec fn rendered(bytes: Seq<u8>) -> Seq<u8>
    decreases bytes.len(),
{
    if bytes.len() == 0 {
        Seq::empty()
    } else if bytes.len() == 1 {
        decimal(bytes[0])
    } else {
        rendered(bytes.drop_last()) + seq![44u8] + decimal(bytes.last())
    }
}

/// Writes `bytes` as ASCII text: each byte in decimal, separated by commas,
/// the way a request that is not valid UTF-8 is shown.
pub fn render_bytes(bytes: &[u8]) -> (r: Vec<u8>)
    ensures
        r@ == rendered(bytes@),
{
    let mut out: Vec<u8> = Vec::new();
    let mut i: usize = 0;
    while i < bytes.len()
        invariant
            i <= bytes@.len(),
            out@ == rendered(bytes@.subrange(0, i as int)),
        decreases bytes@.len() - i,
    {
        let b = bytes[i];
        if i > 0 {
            out.push(44u8);
        }
        if b >= 100 {
            out.push(48 + b / 100);
        }
        if b >= 10 {
            out.push(48 + (b / 10) % 10);
        }
        out.push(48 + b % 10);
        proof {
            let prefix = bytes@.subrange(0, i as int + 1);
            assert(prefix.drop_last() =~= bytes@.subrange(0, i as int));
            assert(prefix.last() == b);
            if i == 0 {
                assert(bytes@.subrange(0, 0) =~= Seq::<u8>::empty());
            }
        }
        i = i + 1;
        assert(out@ =~= rendered(bytes@.subrange(0, i as int)));
    }
    assert(bytes@.subrange(0, i as int) =~= bytes@);
    out
}

/// A request: who sends it, its id, what it asks for, and its source text.
#[derive(Debug, Clone, PartialEq)]
pub struct ApiQuery {
    authToken: String,
    id: String,
    query: ApiQueryType,
    srcQuery: String,
    pub keepAlive: bool,
    pub debug: bool,
}

impl ApiQuery {
    pub closed spec fn spec_auth_token(&self) -> Seq<char> {
        self.authToken@
    }

    pub closed spec fn spec_id(&self) -> Seq<char> {
        self.id@
    }

    pub closed spec fn spec_query(&self) -> ApiQueryType {
        self.query
    }

    pub closed spec fn spec_src_query(&self) -> Seq<char> {
        self.srcQuery@
    }

    pub closed spec fn spec_keep_alive(&self) -> bool {
        self.keepAlive
    }

    pub closed spec fn spec_debug(&self) -> bool {
        self.debug
    }

    /// The sender's authentication token.
    pub fn authToken(&self) -> (r: String)
        ensures
            r@ == self.spec_auth_token(),
    {
        self.authToken.clone()
    }

    /// The request's id.
    pub fn id(&self) -> (r: String)
        ensures
            r@ == self.spec_id(),
    {
        self.id.clone()
    }

    /// What the request asks for.
    pub fn query(&self) -> (r: ApiQueryType)
        ensures
            r == self.spec_query(),
    {
        self.query.copy()
    }

    /// The request's source text when `debug` is set, else the empty string.
    pub fn srcQuery(&self, debug: bool) -> (r: String)
        ensures
            debug ==> r@ == self.spec_src_query(),
            !debug ==> r@ == Seq::<char>::empty(),
    {
        if debug {
            self.srcQuery.clone()
        } else {
            String::new()
        }
    }

    /// A request made of its parts.
    pub fn new(
        auth_token: String,
        id: String,
        query: ApiQueryType,
        srcQuery: String,
        keepAlive: bool,
        debug: bool,
    ) -> (r: ApiQuery)
        ensures
            r.spec_auth_token() == auth_token@,
            r.spec_id() == id@,
            r.spec_query() == query,
            r.spec_src_query() == srcQuery@,
            r.spec_keep_alive() == keepAlive,
            r.spec_debug() == debug,
    {
        ApiQuery { authToken: auth_token, id, query, srcQuery, keepAlive, debug }
    }

    /// The service that a request addresses, given which service members
    /// (`sql`, `python`, `executable`) its object holds.
    pub fn parseQueryTypeName(sql: bool, python: bool, executable: bool) -> (r: Result<ApiQueryTypeName, ApiQueryError>)
        ensures
            r == query_type_name(sql, python, executable),
    {
        let mut count: u8 = 0;
        let mut name = ApiQueryTypeName::Unknown;
        if sql {
            count = count + 1;
            name = ApiQueryTypeName::Sql;
        }
        if python {
            count = count + 1;
            name = ApiQueryTypeName::Python;
        }
        if executable {
            count = count + 1;
            name = ApiQueryTypeName::Executable;
        }
        if count > 1 {
            Err(ApiQueryError::MultiService)
        } else {
            Ok(name)
        }
    }

    /// A request whose bytes could not be read as a JSON object: both
    /// `authToken` and `id` are `Unknown`, the query is `Error(error)`, keep
    /// alive is off and debug on.
    pub fn fromInvalid(srcQuery: String, error: ApiQueryError) -> (r: ApiQuery)
        ensures
            r.spec_auth_token() == unknown_text(),
            r.spec_id() == unknown_text(),
            r.spec_query() == ApiQueryType::Error(error),
            r.spec_src_query() == srcQuery@,
            !r.spec_keep_alive(),
            r.spec_debug(),
    {
        ApiQuery::new(unknown(), unknown(), ApiQueryType::Error(error), srcQuery, false, true)
    }

    /// A request read from the members of a JSON object: `authToken` and
    /// `id` (strings), `keepAlive` and `debug` (booleans; off when absent or
    /// not booleans), and the JSON text of each service member present.
    /// Without `authToken` or `id` the query is `Error(MissingField)` and each
    /// missing one reads `Unknown`; else the query addresses the one service
    /// present, is `Unknown` with none, and `Error(MultiService)` with more.
    pub fn fromFields(
        srcQuery: String,
        auth_token: Option<String>,
        id: Option<String>,
        keepAlive: Option<bool>,
        debug: Option<bool>,
        sql: Option<String>,
        python: Option<String>,
        executable: Option<String>,
    ) -> (r: ApiQuery)
        ensures
            r.spec_auth_token() == (match auth_token { Some(a) => a@, None => unknown_text() }),
            r.spec_id() == (match id { Some(i) => i@, None => unknown_text() }),
            r.spec_keep_alive() == (keepAlive == Some(true)),
            r.spec_debug() == (debug == Some(true)),
            r.spec_src_query() == srcQuery@,
            r.spec_query() == (if auth_token is None || id is None {
                ApiQueryType::Error(ApiQueryError::MissingField)
            } else {
                match query_type_name(sql is Some, python is Some, executable is Some) {
                    Err(e) => ApiQueryType::Error(e),
                    Ok(ApiQueryTypeName::Sql) => ApiQueryType::Sql(sql->0),
                    Ok(ApiQueryTypeName::Python) => ApiQueryType::Python(python->0),
                    Ok(ApiQueryTypeName::Executable) => ApiQueryType::Executable(executable->0),
                    Ok(ApiQueryTypeName::Unknown) => ApiQueryType::Unknown,
                }
            }),
    {
        let keep = match keepAlive {
            Some(k) => k,
            None => false,
        };
        let dbg = match debug {
            Some(d) => d,
            None => false,
        };
        let missing = auth_token.is_none() || id.is_none();
        let auth_token = match auth_token {
            Some(a) => a,
            None => unknown(),
        };
        let id = match id {
            Some(i) => i,
            None => unknown(),
        };
        if missing {
            return ApiQuery::new(auth_token, id, ApiQueryType::Error(ApiQueryError::MissingField), srcQuery, keep, dbg);
        }
        let name = ApiQuery::parseQueryTypeName(sql.is_some(), python.is_some(), executable.is_some());
        let query = match name {
            Err(e) => ApiQueryType::Error(e),
            Ok(ApiQueryTypeName::Sql) => match sql {
                Some(s) => ApiQueryType::Sql(s),
                None => ApiQueryType::Unknown,
            },
            Ok(ApiQueryTypeName::Python) => match python {
                Some(s) => ApiQueryType::Python(s),
                None => ApiQueryType::Unknown,
            },
            Ok(ApiQueryTypeName::Executable) => match executable {
                Some(s) => ApiQueryType::Executable(s),
                None => ApiQueryType::Unknown,
            },
            Ok(ApiQueryTypeName::Unknown) => ApiQueryType::Unknown,
        };
        ApiQuery::new(auth_token, id, query, srcQuery, keep, dbg)
    }
}

} // verus!
