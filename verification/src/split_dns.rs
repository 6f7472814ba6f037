//! Split DNS: names of one domain are resolved by servers of their own.

use vstd::prelude::*;
use vstd::string::*;
use vstd::utf8::encode_utf8;

use crate::text::{chars_of, joined, same_text, same_texts, string_of, texts};

verus! {

/// The resolver entry of one item.
#[derive(Clone, Debug)]
pub struct SplitDnsRequest {
    pub os_id: String,
    pub item_id: String,
    pub domain: String,
    pub servers: Vec<String>,
    pub resource: String,
    pub content: Vec<u8>,
}

/// What is found of the resolver entry.
#[derive(Clone, Debug)]
pub struct SplitDnsState {
    pub exists: bool,
    pub content: Vec<u8>,
}

impl Default for SplitDnsState {
    fn default() -> (state: SplitDnsState)
        ensures
            !state.exists,
            state.content@.len() == 0,
    {
        SplitDnsState { exists: false, content: Vec::new() }
    }
}

/// How the resolver entry of an operating system is changed.
#[derive(Clone, Copy, Debug, PartialEq, Eq, Structural)]
pub enum SplitDnsRoute {
    /// As a rule of the name resolution policy.
    PolicyRule,
    /// As a file, after which the resolver may have to be restarted.
    File { restart_resolver: bool },
}

/// How the resolver entry of an operating system is changed.
pub open spec fn split_dns_route(os_id: Seq<char>) -> SplitDnsRoute {
    if os_id == "windows"@ {
        SplitDnsRoute::PolicyRule
    } else {
        SplitDnsRoute::File { restart_resolver: os_id == "ubuntu"@ }
    }
}

/// How the resolver entry of the operating system is changed.
pub fn route_split_dns(os_id: &str) -> (route: SplitDnsRoute)
    ensures
        route == split_dns_route(os_id@),
{
    if same_text(os_id, "windows") {
        SplitDnsRoute::PolicyRule
    } else {
        SplitDnsRoute::File { restart_resolver: same_text(os_id, "ubuntu") }
    }
}

/// The comment by which an entry of an item is known.
pub open spec fn marker_text(item_id: Seq<char>) -> Seq<char> {
    "Managed by shine: split-dns:"@ + item_id
}

/// The comment by which the entry of the item is known.
pub fn split_dns_marker(item_id: &str) -> (marker: String)
    ensures
        marker@ == marker_text(item_id@),
{
    joined("Managed by shine: split-dns:", item_id)
}

/// A text as it stands between single quotes: each quote is doubled.
pub open spec fn quoted(text: Seq<char>) -> Seq<char>
    decreases text.len(),
{
    if text.len() == 0 {
        Seq::empty()
    } else if text.last() == '\'' {
        quoted(text.drop_last()).push('\'').push('\'')
    } else {
        quoted(text.drop_last()).push(text.last())
    }
}

/// The text as it stands between single quotes.
pub fn powershell_quote(value: &str) -> (text: String)
    ensures
        text@ == quoted(value@),
{
    let chars = chars_of(value);
    let mut out: Vec<char> = Vec::new();
    let mut i: usize = 0;
    proof {
        assert(chars@.take(0) =~= Seq::<char>::empty());
    }
    while i < chars.len()
        invariant
            i <= chars.len(),
            chars@ == value@,
            out@ == quoted(chars@.take(i as int)),
        decreases chars.len() - i,
    {
        proof {
            assert(chars@.take(i as int + 1).drop_last() =~= chars@.take(i as int));
        }
        let c: char = chars[i];
        if c == '\'' {
            out.push(c);
        }
        out.push(c);
        i += 1;
    }
    proof {
        assert(chars@.take(chars@.len() as int) =~= chars@);
    }
    string_of(out.as_slice())
}

/// How many single quotes a text has.
pub open spec fn quotes_in(text: Seq<char>) -> nat
    decreases text.len(),
{
    if text.len() == 0 {
        0
    } else {
        quotes_in(text.drop_last()) + if text.last() == '\'' {
            1nat
        } else {
            0nat
        }
    }
}

proof fn lemma_quotes_push(text: Seq<char>, c: char)
    ensures
        quotes_in(text.push(c)) == quotes_in(text) + if c == '\'' {
            1nat
        } else {
            0nat
        },
{
    assert(text.push(c).drop_last() =~= text);
}

/// Every quote of a text is doubled: a quoted text has twice as many.
pub proof fn law_quoting_doubles_quotes(text: Seq<char>)
    ensures
        quotes_in(quoted(text)) == 2 * quotes_in(text),
    decreases text.len(),
{
    if text.len() > 0 {
        let before = quoted(text.drop_last());
        law_quoting_doubles_quotes(text.drop_last());
        lemma_quotes_push(before, text.last());
        lemma_quotes_push(before.push('\''), '\'');
    }
}

/// The script that asks for the policy rules of an item.
pub open spec fn query_text(item_id: Seq<char>) -> Seq<char> {
    "$rules=@(Get-DnsClientNrptRule | Where-Object {$_.Comment -ceq '"@ + quoted(
        marker_text(item_id),
    )
        + "'} | ForEach-Object {[PSCustomObject]@{Comment=$_.Comment;Namespace=@($_.Namespace | ForEach-Object {$_.ToString()});NameServers=@($_.NameServers | ForEach-Object {$_.ToString()})}}); [PSCustomObject]@{Rules=@($rules)} | ConvertTo-Json -Compress -Depth 3"@
}

/// The script that asks for the policy rules of the item.
pub fn policy_query(item_id: &str) -> (script: String)
    ensures
        script@ == query_text(item_id@),
{
    let marker = split_dns_marker(item_id);
    let inner = powershell_quote(marker.as_str());
    let mut script = joined(
        "$rules=@(Get-DnsClientNrptRule | Where-Object {$_.Comment -ceq '",
        inner.as_str(),
    );
    script.append(
        "'} | ForEach-Object {[PSCustomObject]@{Comment=$_.Comment;Namespace=@($_.Namespace | ForEach-Object {$_.ToString()});NameServers=@($_.NameServers | ForEach-Object {$_.ToString()})}}); [PSCustomObject]@{Rules=@($rules)} | ConvertTo-Json -Compress -Depth 3",
    );
    script
}

/// The script that removes the policy rules of an item.
pub open spec fn removal_text(item_id: Seq<char>) -> Seq<char> {
    "$rules=@(Get-DnsClientNrptRule | Where-Object {$_.Comment -eq '"@ + quoted(
        marker_text(item_id),
    )
        + "'}); foreach($rule in $rules){Remove-DnsClientNrptRule -Name $rule.Name -Force}"@
}

/// The script that removes the policy rules of the item.
pub fn policy_removal(item_id: &str) -> (script: String)
    ensures
        script@ == removal_text(item_id@),
{
    let marker = split_dns_marker(item_id);
    let inner = powershell_quote(marker.as_str());
    let mut script = joined(
        "$rules=@(Get-DnsClientNrptRule | Where-Object {$_.Comment -eq '",
        inner.as_str(),
    );
    script.append(
        "'}); foreach($rule in $rules){Remove-DnsClientNrptRule -Name $rule.Name -Force}",
    );
    script
}

/// Servers as a list of quoted texts.
pub open spec fn server_list(servers: Seq<Seq<char>>) -> Seq<char>
    decreases servers.len(),
{
    if servers.len() == 0 {
        Seq::empty()
    } else if servers.len() == 1 {
        "'"@ + quoted(servers[0]) + "'"@
    } else {
        server_list(servers.drop_last()) + ",'"@ + quoted(servers.last()) + "'"@
    }
}

fn join_servers(servers: &Vec<String>) -> (text: String)
    ensures
        text@ == server_list(texts(servers@)),
{
    let ghost all = texts(servers@);
    let mut text = String::new();
    let mut i: usize = 0;
    proof {
        assert(all.take(0) =~= Seq::<Seq<char>>::empty());
        assert(text@ =~= Seq::<char>::empty());
    }
    while i < servers.len()
        invariant
            i <= servers.len(),
            all == texts(servers@),
            text@ == server_list(all.take(i as int)),
        decreases servers.len() - i,
    {
        proof {
            let prefix = all.take(i as int + 1);
            assert(prefix.drop_last() =~= all.take(i as int));
            assert(prefix.last() == servers@[i as int]@);
            assert(prefix[0] == all[0]);
            assert(Seq::<char>::empty() + "'"@ =~= "'"@);
        }
        let inner = powershell_quote(servers[i].as_str());
        if i > 0 {
            text.append(",'");
        } else {
            text.append("'");
        }
        text.append(inner.as_str());
        text.append("'");
        i += 1;
    }
    proof {
        assert(all.take(all.len() as int) =~= all);
    }
    text
}

/// The script that sets the policy rule of an item in place of those it had.
pub open spec fn apply_text(
    item_id: Seq<char>,
    namespace: Seq<char>,
    servers: Seq<Seq<char>>,
) -> Seq<char> {
    removal_text(item_id) + "; Add-DnsClientNrptRule -Namespace '"@ + quoted(namespace)
        + "' -NameServers @("@ + server_list(servers) + ") -Comment '"@ + quoted(
        marker_text(item_id),
    ) + "' | Out-Null"@
}

/// The script that sets the policy rule of the item.
pub fn policy_apply(request: &SplitDnsRequest) -> (script: String)
    ensures
        script@ == apply_text(request.item_id@, request.resource@, texts(request.servers@)),
{
    let marker = split_dns_marker(request.item_id.as_str());
    let inner = powershell_quote(marker.as_str());
    let namespace = powershell_quote(request.resource.as_str());
    let servers = join_servers(&request.servers);
    let mut script = policy_removal(request.item_id.as_str());
    script.append("; Add-DnsClientNrptRule -Namespace '");
    script.append(namespace.as_str());
    script.append("' -NameServers @(");
    script.append(servers.as_str());
    script.append(") -Comment '");
    script.append(inner.as_str());
    script.append("' | Out-Null");
    script
}

/// A rule of the name resolution policy.
#[derive(Clone, Debug)]
pub struct PolicyRule {
    pub comment: String,
    pub namespace: Vec<String>,
    pub name_servers: Vec<String>,
}

/// Whether the rules are the one rule that an item asks for.
pub open spec fn is_exact_rule(rules: Seq<PolicyRule>, request: SplitDnsRequest) -> bool {
    &&& rules.len() == 1
    &&& rules[0].comment@ == marker_text(request.item_id@)
    &&& texts(rules[0].namespace@) == seq![request.resource@]
    &&& texts(rules[0].name_servers@) == texts(request.servers@)
}

/// What the rules of an item come to: the entry as it was asked for, or another
/// one that has its comment.
pub fn policy_state(rules: &Vec<PolicyRule>, request: &SplitDnsRequest) -> (state: SplitDnsState)
    ensures
        state.exists == (rules@.len() > 0),
        state.content@ == if rules@.len() == 0 {
            Seq::empty()
        } else if is_exact_rule(rules@, *request) {
            request.content@
        } else {
            encode_utf8(marker_text(request.item_id@))
        },
{
    if rules.len() == 0 {
        let state = SplitDnsState { exists: false, content: Vec::new() };
        proof {
            assert(state.content@ =~= Seq::<u8>::empty());
        }
        return state;
    }
    let marker = split_dns_marker(request.item_id.as_str());
    let mut wanted: Vec<String> = Vec::new();
    wanted.push(request.resource.clone());
    proof {
        assert(texts(wanted@) =~= seq![request.resource@]);
    }
    let exact = rules.len() == 1 && same_text(rules[0].comment.as_str(), marker.as_str())
        && same_texts(rules[0].namespace.as_slice(), wanted.as_slice()) && same_texts(
        rules[0].name_servers.as_slice(),
        request.servers.as_slice(),
    );
    let mut content: Vec<u8> = Vec::new();
    if exact {
        content.extend_from_slice(request.content.as_slice());
        proof {
            assert(content@ =~= request.content@);
        }
    } else {
        let bytes: &[u8] = marker.as_str().as_bytes();
        content.extend_from_slice(bytes);
        proof {
            assert(content@ =~= encode_utf8(marker@));
        }
    }
    SplitDnsState { exists: true, content }
}

/// A script that leaves word of how it went in a file.
pub open spec fn guarded_text(script: Seq<char>, result_path: Seq<char>) -> Seq<char> {
    "$ErrorActionPreference='Stop'\ntry {\n"@ + script + "\nSet-Content -LiteralPath '"@ + quoted(
        result_path,
    ) + "' -Value 'ok'\nexit 0\n} catch {\nSet-Content -LiteralPath '"@ + quoted(result_path)
        + "' -Value $_.Exception.Message\nexit 1\n}\n"@
}

/// The script, so that it leaves word of how it went in the file.
pub fn guarded_script(script: &str, result_path: &str) -> (body: String)
    ensures
        body@ == guarded_text(script@, result_path@),
{
    let path = powershell_quote(result_path);
    let mut body = joined("$ErrorActionPreference='Stop'\ntry {\n", script);
    body.append("\nSet-Content -LiteralPath '");
    body.append(path.as_str());
    body.append("' -Value 'ok'\nexit 0\n} catch {\nSet-Content -LiteralPath '");
    body.append(path.as_str());
    body.append("' -Value $_.Exception.Message\nexit 1\n}\n");
    body
}

/// The call that runs a script file with the rights of an administrator.
pub open spec fn elevation_text(script_path: Seq<char>) -> Seq<char> {
    "$p=Start-Process powershell.exe -Verb RunAs -Wait -PassThru -ArgumentList @('-NoProfile','-ExecutionPolicy','Bypass','-File','\""@
        + quoted(script_path) + "\"'); exit $p.ExitCode"@
}

/// The call that runs the script file with the rights of an administrator.
pub fn elevation_call(script_path: &str) -> (call: String)
    ensures
        call@ == elevation_text(script_path@),
{
    let path = powershell_quote(script_path);
    let mut call = joined(
        "$p=Start-Process powershell.exe -Verb RunAs -Wait -PassThru -ArgumentList @('-NoProfile','-ExecutionPolicy','Bypass','-File','\"",
        path.as_str(),
    );
    call.append("\"'); exit $p.ExitCode");
    call
}

} // verus!
