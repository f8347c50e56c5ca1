//! The target of the compliance checks and the entries of its command line.

use std::collections::BTreeMap;
use vstd::prelude::*;
use vstd::string::StringExecFns;
use crate::types::opt_table;

verus! {

/// The target that the compliance checks run against.
#[derive(Debug)]
pub struct ComplianceTarget {
    pub command: Option<String>,
    pub args: Vec<String>,
    pub env: Option<BTreeMap<String, String>>,
    pub cwd: Option<String>,
    pub sse_url: Option<String>,
    pub http_url: Option<String>,
    pub http_headers: Option<BTreeMap<String, String>>,
    pub http_auth_token: Option<String>,
}

/// What a `ComplianceTarget` stands for in contracts.
pub struct ComplianceTargetView {
    pub command: Option<Seq<char>>,
    pub args: Seq<Seq<char>>,
    pub env: Option<Map<String, String>>,
    pub cwd: Option<Seq<char>>,
    pub sse_url: Option<Seq<char>>,
    pub http_url: Option<Seq<char>>,
    pub http_headers: Option<Map<String, String>>,
    pub http_auth_token: Option<Seq<char>>,
}

impl View for ComplianceTarget {
    type V = ComplianceTargetView;

    open spec fn view(&self) -> ComplianceTargetView {
        ComplianceTargetView {
            command: self.command.deep_view(),
            args: self.args.deep_view(),
            env: opt_table(self.env),
            cwd: self.cwd.deep_view(),
            sse_url: self.sse_url.deep_view(),
            http_url: self.http_url.deep_view(),
            http_headers: opt_table(self.http_headers),
            http_auth_token: self.http_auth_token.deep_view(),
        }
    }
}

impl ComplianceTarget {
    /// A child process started by `command`, and nothing else.
    pub fn stdio(command: &str) -> (target: Self)
        ensures
            target@ == (ComplianceTargetView {
                command: Some(command@),
                args: Seq::empty(),
                env: None,
                cwd: None,
                sse_url: None,
                http_url: None,
                http_headers: None,
                http_auth_token: None,
            }),
    {
        let target = ComplianceTarget {
            command: Some(String::from_str(command)),
            args: Vec::new(),
            env: None,
            cwd: None,
            sse_url: None,
            http_url: None,
            http_headers: None,
            http_auth_token: None,
        };
        assert(target.args.deep_view() =~= Seq::<Seq<char>>::empty());
        target
    }
}

/// `str::split_once` from the standard library with the pattern `=`: the text before
/// the first equals sign and the text behind it.
#[verifier::external_body]
fn split_at_equals<'a>(text: &'a str) -> (parts: Option<(&'a str, &'a str)>)
    ensures
        match parts {
            Some((key, value)) => text@ == key@ + seq!['='] + value@ && !key@.contains('='),
            None => !text@.contains('='),
        },
{
    text.split_once('=')
}

/// Reads one `KEY=VALUE` entry. The key ends at the first equals sign.
pub fn parse_env(raw: &str) -> (entry: Result<(String, String), String>)
    ensures
        match entry {
            Ok((key, value)) => raw@ == key@ + seq!['='] + value@ && !key@.contains('='),
            Err(message) => !raw@.contains('=') && message@ == "env entry must be KEY=VALUE"@,
        },
{
    match split_at_equals(raw) {
        Some((key, value)) => Ok((String::from_str(key), String::from_str(value))),
        None => Err(String::from_str("env entry must be KEY=VALUE")),
    }
}

} // verus!
