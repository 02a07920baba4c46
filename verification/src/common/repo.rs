//! The database a service connects to, and the URL it is reached at.

use vstd::prelude::*;
use vstd::string::*;

use crate::common::error::ConnectedHomeError;
use crate::util::text::{decimal_string, decimal_text, lemma_decimal_text_injective};

verus! {

/// Where the Postgres database is and who connects to it.
#[derive(Clone, Debug)]
pub struct PostgresConfig {
    pub hostname: String,
    pub port: u32,
    pub database: String,
    pub max_connections: u32,
    pub username: String,
    pub password: String,
}

/// Texts that differ only in a middle part are different.
pub proof fn lemma_concat_differs(a: Seq<char>, x: Seq<char>, y: Seq<char>, b: Seq<char>)
    requires
        x != y,
    ensures
        a + x + b != a + y + b,
{
    if x.len() == y.len() {
        assert(!(x =~= y));
        let k = choose|k: int| 0 <= k < x.len() && x[k] != y[k];
        assert((a + x + b)[a.len() + k] == x[k]);
        assert((a + y + b)[a.len() + k] == y[k]);
    } else {
        assert((a + x + b).len() != (a + y + b).len());
    }
}

/// The serialisation of the URL that `url::Url::parse` reads from `input`,
/// or `None` where it reports an error.
pub uninterp spec fn url_serialization(input: Seq<char>) -> Option<Seq<char>>;

/// Calls `url::Url::parse(input)` and keeps the URL's serialisation.
/// Claimed: success exactly where the named `url_serialization(input)` is
/// `Some`, with that text.
#[verifier::external_body]
fn parse_url(input: &str) -> (r: Result<String, url::ParseError>)
    ensures
        r is Ok <==> url_serialization(input@) is Some,
        r matches Ok(u) ==> url_serialization(input@) == Some(u@),
{
    match url::Url::parse(input) {
        Ok(u) => Ok(String::from(u)),
        Err(e) => Err(e),
    }
}

impl PostgresConfig {
    /// The text `postgres://<username>:<password>@<hostname>:<port>/<database>`.
    pub open spec fn url_text(self) -> Seq<char> {
        "postgres://"@ + self.username@ + ":"@ + self.password@ + "@"@ + self.hostname@ + ":"@
            + decimal_text(self.port as nat) + "/"@ + self.database@
    }

    /// Law: the URL text starts `postgres://`, ends with `/` and the
    /// database, and names every configured field: two configurations that
    /// differ in the username, the password, the host, the port or the
    /// database alone have different URL texts.
    pub proof fn lemma_url_text_fields(self, other: PostgresConfig)
        ensures
            self.url_text().take(11) == "postgres://"@,
            self.url_text().skip(self.url_text().len() - self.database@.len() - 1) == "/"@
                + self.database@,
            other.username@ == self.username@ && other.password@ == self.password@
                && other.hostname@ == self.hostname@ && other.port == self.port
                && other.database@ != self.database@ ==> other.url_text() != self.url_text(),
            other.username@ != self.username@ && other.password@ == self.password@
                && other.hostname@ == self.hostname@ && other.port == self.port
                && other.database@ == self.database@ ==> other.url_text() != self.url_text(),
            other.username@ == self.username@ && other.password@ != self.password@
                && other.hostname@ == self.hostname@ && other.port == self.port
                && other.database@ == self.database@ ==> other.url_text() != self.url_text(),
            other.username@ == self.username@ && other.password@ == self.password@
                && other.hostname@ != self.hostname@ && other.port == self.port
                && other.database@ == self.database@ ==> other.url_text() != self.url_text(),
            other.username@ == self.username@ && other.password@ == self.password@
                && other.hostname@ == self.hostname@ && other.port != self.port
                && other.database@ == self.database@ ==> other.url_text() != self.url_text(),
    {
        reveal_strlit("postgres://");
        reveal_strlit("/");
        let c = self;
        let d = other;
        let scheme = "postgres://"@;
        let port_c = decimal_text(c.port as nat);
        let port_d = decimal_text(d.port as nat);
        assert(c.url_text() =~= scheme + (c.username@ + ":"@ + c.password@ + "@"@ + c.hostname@ + ":"@
            + port_c + "/"@ + c.database@));
        assert(c.url_text().take(11) =~= scheme);
        let front = scheme + c.username@ + ":"@ + c.password@ + "@"@ + c.hostname@ + ":"@ + port_c;
        assert(c.url_text() =~= front + ("/"@ + c.database@));
        assert(c.url_text().skip(c.url_text().len() - c.database@.len() - 1) =~= "/"@ + c.database@);
        if d.username@ == c.username@ && d.password@ == c.password@ && d.hostname@ == c.hostname@
            && d.port == c.port && d.database@ != c.database@ {
            assert(d.url_text() =~= front + ("/"@ + d.database@));
            if "/"@ + c.database@ == "/"@ + d.database@ {
                assert(c.database@ =~= ("/"@ + c.database@).skip(1));
                assert(d.database@ =~= ("/"@ + d.database@).skip(1));
            }
            lemma_concat_differs(front, "/"@ + c.database@, "/"@ + d.database@, Seq::<char>::empty());
            assert(c.url_text() =~= front + ("/"@ + c.database@) + Seq::<char>::empty());
            assert(d.url_text() =~= front + ("/"@ + d.database@) + Seq::<char>::empty());
        }
        let rest_u = ":"@ + c.password@ + "@"@ + c.hostname@ + ":"@ + port_c + "/"@ + c.database@;
        if d.username@ != c.username@ && d.password@ == c.password@ && d.hostname@ == c.hostname@
            && d.port == c.port && d.database@ == c.database@ {
            assert(c.url_text() =~= scheme + c.username@ + rest_u);
            assert(d.url_text() =~= scheme + d.username@ + rest_u);
            lemma_concat_differs(scheme, c.username@, d.username@, rest_u);
        }
        let front_p = scheme + c.username@ + ":"@;
        let rest_p = "@"@ + c.hostname@ + ":"@ + port_c + "/"@ + c.database@;
        if d.username@ == c.username@ && d.password@ != c.password@ && d.hostname@ == c.hostname@
            && d.port == c.port && d.database@ == c.database@ {
            assert(c.url_text() =~= front_p + c.password@ + rest_p);
            assert(d.url_text() =~= front_p + d.password@ + rest_p);
            lemma_concat_differs(front_p, c.password@, d.password@, rest_p);
        }
        let front_h = scheme + c.username@ + ":"@ + c.password@ + "@"@;
        let rest_h = ":"@ + port_c + "/"@ + c.database@;
        if d.username@ == c.username@ && d.password@ == c.password@ && d.hostname@ != c.hostname@
            && d.port == c.port && d.database@ == c.database@ {
            assert(c.url_text() =~= front_h + c.hostname@ + rest_h);
            assert(d.url_text() =~= front_h + d.hostname@ + rest_h);
            lemma_concat_differs(front_h, c.hostname@, d.hostname@, rest_h);
        }
        let front_n = scheme + c.username@ + ":"@ + c.password@ + "@"@ + c.hostname@ + ":"@;
        let rest_n = "/"@ + c.database@;
        if d.username@ == c.username@ && d.password@ == c.password@ && d.hostname@ == c.hostname@
            && d.port != c.port && d.database@ == c.database@ {
            if port_c == port_d {
                lemma_decimal_text_injective(c.port as nat, d.port as nat);
            }
            assert(c.url_text() =~= front_n + port_c + rest_n);
            assert(d.url_text() =~= front_n + port_d + rest_n);
            lemma_concat_differs(front_n, port_c, port_d, rest_n);
        }
    }

    /// The database URL, as `url` parses and writes it.
    pub fn url(&self) -> (r: Result<String, ConnectedHomeError>)
        ensures
            r is Ok <==> url_serialization(self.url_text()) is Some,
            r matches Ok(u) ==> url_serialization(self.url_text()) == Some(u@),
            r matches Err(e) ==> e is ParseUrl,
    {
        let mut text = String::from_str("postgres://");
        text.append(self.username.as_str());
        text.append(":");
        text.append(self.password.as_str());
        text.append("@");
        text.append(self.hostname.as_str());
        text.append(":");
        let port = decimal_string(self.port as u128);
        text.append(port.as_str());
        text.append("/");
        text.append(self.database.as_str());
        match parse_url(text.as_str()) {
            Ok(u) => Ok(u),
            Err(e) => Err(ConnectedHomeError::ParseUrl(e)),
        }
    }
}

} // verus!
