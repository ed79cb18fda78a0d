//! Server connectivity probing: validates the caller's server URI and
//! reshapes the node's structured info response — or the failure — into
//! the fixed JSON object the UI consumes. The gRPC call itself happens
//! outside; this module decides what is sent and shapes what came back.
use vstd::prelude::*;
use vstd::string::StringExecFns;

use crate::text::bool_str;
use crate::text::bool_text;
use crate::text::dec_digits;
use crate::text::append_json_quoted;
use crate::text::i64_to_dec;
use crate::text::int_dec;
use crate::text::json_quoted;
use crate::text::u64_to_dec;

verus! {

#[verifier::external_type_specification]
#[verifier::external_body]
pub struct ExUri(http::Uri);

/// Whether a text parses as a URI. A text's parse outcome depends on the
/// text alone.
pub uninterp spec fn is_valid_uri(s: Seq<char>) -> bool;

/// Relies on http::Uri's FromStr implementation: the parsed URI when the
/// text is well-formed, otherwise the parse failure's display text.
#[verifier::external_body]
fn parse_uri(s: &str) -> (r: Result<http::Uri, String>)
    ensures
        r is Ok <==> is_valid_uri(s@),
{
    match s.parse::<http::Uri>() {
        Ok(uri) => Ok(uri),
        Err(e) => Err(format!("{}", e)),
    }
}

/// The node's info response as plain values.
pub struct ServerInfo {
    pub version: String,
    pub vendor: String,
    pub taddr_support: bool,
    pub chain_name: String,
    pub sapling_activation_height: u64,
    pub consensus_branch_id: String,
    pub block_height: u64,
    pub git_commit: String,
    pub branch: String,
    pub build_date: String,
    pub build_user: String,
    pub estimated_height: u64,
    pub zcashd_build: String,
    pub zcashd_subversion: String,
}

/// The JSON object reported for a reachable server: the fixed field set,
/// keys in sorted order, plus a success marker and the probe's timestamp.
pub open spec fn server_info_json_spec(info: ServerInfo, timestamp: i64) -> Seq<char> {
    "{\"block_height\":"@ + dec_digits(info.block_height as nat) + ",\"branch\":"@ + json_quoted(
        info.branch@,
    ) + ",\"build_date\":"@ + json_quoted(info.build_date@) + ",\"build_user\":"@ + json_quoted(
        info.build_user@,
    ) + ",\"chain_name\":"@ + json_quoted(info.chain_name@) + ",\"consensus_branch_id\":"@
        + json_quoted(info.consensus_branch_id@) + ",\"estimated_height\":"@ + dec_digits(
        info.estimated_height as nat,
    ) + ",\"git_commit\":"@ + json_quoted(info.git_commit@) + ",\"sapling_activation_height\":"@
        + dec_digits(info.sapling_activation_height as nat) + ",\"success\":true,\"taddr_support\":"@
        + bool_text(info.taddr_support) + ",\"timestamp\":"@ + int_dec(timestamp as int)
        + ",\"vendor\":"@ + json_quoted(info.vendor@) + ",\"version\":"@ + json_quoted(
        info.version@,
    ) + ",\"zcashd_build\":"@ + json_quoted(info.zcashd_build@) + ",\"zcashd_subversion\":"@
        + json_quoted(info.zcashd_subversion@) + "}"@
}

/// Renders the info object for a reachable server.
pub fn server_info_json(info: &ServerInfo, timestamp: i64) -> (r: String)
    ensures
        r@ == server_info_json_spec(*info, timestamp),
{
    let mut r = String::from_str("{\"block_height\":");
    let block_height_digits = u64_to_dec(info.block_height);
    r.append(block_height_digits.as_str());
    r.append(",\"branch\":");
    append_json_quoted(&mut r, info.branch.as_str());
    r.append(",\"build_date\":");
    append_json_quoted(&mut r, info.build_date.as_str());
    r.append(",\"build_user\":");
    append_json_quoted(&mut r, info.build_user.as_str());
    r.append(",\"chain_name\":");
    append_json_quoted(&mut r, info.chain_name.as_str());
    r.append(",\"consensus_branch_id\":");
    append_json_quoted(&mut r, info.consensus_branch_id.as_str());
    r.append(",\"estimated_height\":");
    let estimated_digits = u64_to_dec(info.estimated_height);
    r.append(estimated_digits.as_str());
    r.append(",\"git_commit\":");
    append_json_quoted(&mut r, info.git_commit.as_str());
    r.append(",\"sapling_activation_height\":");
    let activation_digits = u64_to_dec(info.sapling_activation_height);
    r.append(activation_digits.as_str());
    r.append(",\"success\":true,\"taddr_support\":");
    r.append(bool_str(info.taddr_support));
    r.append(",\"timestamp\":");
    let timestamp_digits = i64_to_dec(timestamp);
    r.append(timestamp_digits.as_str());
    r.append(",\"vendor\":");
    append_json_quoted(&mut r, info.vendor.as_str());
    r.append(",\"version\":");
    append_json_quoted(&mut r, info.version.as_str());
    r.append(",\"zcashd_build\":");
    append_json_quoted(&mut r, info.zcashd_build.as_str());
    r.append(",\"zcashd_subversion\":");
    append_json_quoted(&mut r, info.zcashd_subversion.as_str());
    r.append("}");
    proof {
        assert(r@ =~= server_info_json_spec(*info, timestamp));
    }
    r
}

/// The JSON object reported for an unreachable server.
pub open spec fn server_error_json_spec(message: Seq<char>, timestamp: i64) -> Seq<char> {
    "{\"details\":\"Please check server URL and network connectivity\",\"error\":"@ + json_quoted(
        "Failed to connect to server: "@ + message,
    ) + ",\"timestamp\":"@ + int_dec(timestamp as int) + "}"@
}

/// Renders the error object for a server that could not be reached.
pub fn server_error_json(message: &str, timestamp: i64) -> (r: String)
    ensures
        r@ == server_error_json_spec(message@, timestamp),
{
    let mut full = String::from_str("Failed to connect to server: ");
    full.append(message);
    let mut r = String::from_str(
        "{\"details\":\"Please check server URL and network connectivity\",\"error\":",
    );
    append_json_quoted(&mut r, full.as_str());
    r.append(",\"timestamp\":");
    let timestamp_digits = i64_to_dec(timestamp);
    r.append(timestamp_digits.as_str());
    r.append("}");
    proof {
        assert(r@ =~= server_error_json_spec(message@, timestamp));
    }
    r
}

/// The JSON object reported for a server URI that does not parse.
pub open spec fn uri_error_json_spec(message: Seq<char>) -> Seq<char> {
    "{\"details\":\"Please check the server URL format\",\"error\":"@ + json_quoted(
        "Invalid server URI: "@ + message,
    ) + "}"@
}

/// Renders the error object for a malformed server URI.
pub fn uri_error_json(message: &str) -> (r: String)
    ensures
        r@ == uri_error_json_spec(message@),
{
    let mut full = String::from_str("Invalid server URI: ");
    full.append(message);
    let mut r = String::from_str("{\"details\":\"Please check the server URL format\",\"error\":");
    append_json_quoted(&mut r, full.as_str());
    r.append("}");
    proof {
        assert(r@ =~= uri_error_json_spec(message@));
    }
    r
}

/// What a connectivity probe does with the caller's URI text.
pub enum ServerProbe {
    /// The text does not parse as a URI: the caller gets this error
    /// object and no connection is attempted.
    Invalid { result: String },
    /// The URI to hand to the node's info call.
    Query { uri: http::Uri },
}

/// Validates the server URI: the parsed URI to probe, or the error
/// object for a text that does not parse.
pub fn probe_server_plan(server_uri: &str) -> (p: ServerProbe)
    ensures
        (p is Query <==> is_valid_uri(server_uri@)),
        p is Invalid ==> exists|m: Seq<char>| p->result@ == uri_error_json_spec(m),
{
    match parse_uri(server_uri) {
        Result::Ok(uri) => ServerProbe::Query { uri },
        Result::Err(message) => {
            let result = uri_error_json(message.as_str());
            proof {
                assert(result@ == uri_error_json_spec(message@));
            }
            ServerProbe::Invalid { result }
        },
    }
}

} // verus!
