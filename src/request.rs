use vstd::prelude::*;
use vstd::string::StrSliceExecFns;

use crate::cli::{
    AccountCommand, Command, DomainCommand, RegisterArgs, ResourceRecordSetCommand,
    ResourceRecordSetCreateArgs, ResourceRecordSetDeleteArgs, ResourceRecordSetGetArgs,
    TokenCommand, TokenCreateArgs, TokenPatchArgs, TokenPolicyCommand, TokenPolicyCreateArgs,
    TokenPolicyPatchArgs,
};

verus! {

/// The key of an RRset. An absent subname is the domain apex.
#[derive(Clone, Debug, PartialEq, Eq)]
pub struct RrsetKey {
    pub domain: String,
    pub subname: Option<String>,
    pub rrset_type: String,
}

/// The optional fields of a token on creation or change. An absent field is
/// not sent: the server's default, or the value unchanged.
#[derive(Clone, Debug, PartialEq, Eq)]
pub struct TokenFields {
    pub name: Option<String>,
    pub subnets: Option<Vec<String>>,
    pub can_manage: Option<bool>,
    pub max_age: Option<String>,
    pub max_unused_period: Option<String>,
}

/// The scope of a token policy. With domain, subname and type all absent it
/// is the token's default policy.
#[derive(Clone, Debug, PartialEq, Eq)]
pub struct PolicyScope {
    pub domain: Option<String>,
    pub subname: Option<String>,
    pub rrset_type: Option<String>,
    pub write_permission: Option<bool>,
}

/// One request against the API, as a command asks for it.
#[derive(Clone, Debug, PartialEq, Eq)]
pub enum Request {
    GetCaptcha,
    Register {
        email: String,
        password: String,
        captcha_id: String,
        captcha_solution: String,
        domain: Option<String>,
    },
    Login { email: String, password: String },
    AccountInfo,
    ListDomains,
    GetDomain { name: String },
    CreateDomain { name: String },
    DeleteDomain { name: String },
    /// The domain responsible for an arbitrary DNS name; resolved by the server.
    OwningDomain { name: String },
    ExportZonefile { name: String },
    ListRrsets { domain: String },
    GetRrset { key: RrsetKey },
    CreateRrset { key: RrsetKey, ttl: u64, records: Vec<String> },
    DeleteRrset { key: RrsetKey },
    ListTokens,
    GetToken { token_id: String },
    CreateToken { fields: TokenFields },
    PatchToken { token_id: String, fields: TokenFields },
    DeleteToken { token_id: String },
    ListPolicies { token_id: String },
    GetPolicy { token_id: String, policy_id: String },
    CreatePolicy { token_id: String, scope: PolicyScope },
    PatchPolicy { token_id: String, policy_id: String, scope: PolicyScope },
    DeletePolicy { token_id: String, policy_id: String },
}

/// `@` and the empty subname both stand for the domain apex.
pub open spec fn is_apex_marker(s: Seq<char>) -> bool {
    s == seq!['@'] || s.len() == 0
}

/// The canonical form of a subname: absent for the apex, else as given.
pub open spec fn canonical_subname(s: String) -> Option<String> {
    if is_apex_marker(s@) {
        None
    } else {
        Some(s)
    }
}

/// A policy scope field: an empty string means absent.
pub open spec fn scope_field(f: Option<String>) -> Option<String> {
    match f {
        Some(s) => if s@.len() == 0 {
            None
        } else {
            Some(s)
        },
        None => None,
    }
}

pub open spec fn rrset_key(domain: String, subname: String, rrset_type: String) -> RrsetKey {
    RrsetKey { domain, subname: canonical_subname(subname), rrset_type }
}

pub open spec fn token_fields(
    name: Option<String>,
    subnets: Option<Vec<String>>,
    manage: Option<bool>,
    max_age: Option<String>,
    max_unused_period: Option<String>,
) -> TokenFields {
    TokenFields { name, subnets, can_manage: manage, max_age, max_unused_period }
}

pub open spec fn policy_scope(
    domain: Option<String>,
    subname: Option<String>,
    rrset_type: Option<String>,
    perm_write: Option<bool>,
) -> PolicyScope {
    PolicyScope {
        domain: scope_field(domain),
        subname: scope_field(subname),
        rrset_type: scope_field(rrset_type),
        write_permission: perm_write,
    }
}

pub open spec fn account_command_request(c: AccountCommand) -> Request {
    match c {
        AccountCommand::Show => Request::AccountInfo,
        AccountCommand::Captcha => Request::GetCaptcha,
        AccountCommand::Register(a) => Request::Register {
            email: a.email,
            password: a.password,
            captcha_id: a.id,
            captcha_solution: a.solution,
            domain: a.domain,
        },
        AccountCommand::Login(a) => Request::Login { email: a.email, password: a.password },
    }
}

pub open spec fn domain_command_request(c: DomainCommand) -> Request {
    match c {
        DomainCommand::Get(a) => Request::GetDomain { name: a.name },
        DomainCommand::List => Request::ListDomains,
        DomainCommand::Create(a) => Request::CreateDomain { name: a.name },
        DomainCommand::Delete(a) => Request::DeleteDomain { name: a.name },
        DomainCommand::Responsible(a) => Request::OwningDomain { name: a.name },
        DomainCommand::Export(a) => Request::ExportZonefile { name: a.name },
    }
}

pub open spec fn rrset_command_request(c: ResourceRecordSetCommand) -> Request {
    match c {
        ResourceRecordSetCommand::Get(a) => Request::GetRrset {
            key: rrset_key(a.name, a.subname, a.rrset_type),
        },
        ResourceRecordSetCommand::List(a) => Request::ListRrsets { domain: a.name },
        ResourceRecordSetCommand::Create(a) => Request::CreateRrset {
            key: rrset_key(a.name, a.subname, a.rrset_type),
            ttl: a.ttl,
            records: a.records,
        },
        ResourceRecordSetCommand::Delete(a) => Request::DeleteRrset {
            key: rrset_key(a.name, a.subname, a.rrset_type),
        },
    }
}

pub open spec fn token_command_request(c: TokenCommand) -> Request {
    match c {
        TokenCommand::List => Request::ListTokens,
        TokenCommand::Get(a) => Request::GetToken { token_id: a.token_id },
        TokenCommand::Create(a) => Request::CreateToken {
            fields: token_fields(a.name, a.subnets, a.manage, a.max_age, a.max_unused_period),
        },
        TokenCommand::Delete(a) => Request::DeleteToken { token_id: a.token_id },
        TokenCommand::Patch(a) => Request::PatchToken {
            token_id: a.token_id,
            fields: token_fields(a.name, a.subnets, a.manage, a.max_age, a.max_unused_period),
        },
    }
}

pub open spec fn policy_command_request(c: TokenPolicyCommand) -> Request {
    match c {
        TokenPolicyCommand::List(a) => Request::ListPolicies { token_id: a.token_id },
        TokenPolicyCommand::Get(a) => Request::GetPolicy {
            token_id: a.token_id,
            policy_id: a.policy_id,
        },
        TokenPolicyCommand::Create(a) => Request::CreatePolicy {
            token_id: a.token_id,
            scope: policy_scope(a.domain, a.subname, a.rrset_type, a.perm_write),
        },
        TokenPolicyCommand::Delete(a) => Request::DeletePolicy {
            token_id: a.token_id,
            policy_id: a.policy_id,
        },
        TokenPolicyCommand::Patch(a) => Request::PatchPolicy {
            token_id: a.token_id,
            policy_id: a.policy_id,
            scope: policy_scope(a.domain, a.subname, a.rrset_type, a.perm_write),
        },
    }
}

/// The request that a command asks for.
pub open spec fn command_request(c: Command) -> Request {
    match c {
        Command::Account(a) => account_command_request(a.command),
        Command::Domain(d) => domain_command_request(d.command),
        Command::ResourceRecordSet(r) => rrset_command_request(r.command),
        Command::Token(t) => token_command_request(t.command),
        Command::TokenPolicy(p) => policy_command_request(p.command),
    }
}

/// Whether two RRset commands are the same operation on the same RRset, both
/// naming the apex, each by `@` or by the empty subname.
pub open spec fn same_apex_operation(c1: ResourceRecordSetCommand, c2: ResourceRecordSetCommand) -> bool {
    match c1 {
        ResourceRecordSetCommand::Get(a) => c2 matches ResourceRecordSetCommand::Get(b) && a.name
            == b.name && a.rrset_type == b.rrset_type && is_apex_marker(a.subname@)
            && is_apex_marker(b.subname@),
        ResourceRecordSetCommand::Create(a) => c2 matches ResourceRecordSetCommand::Create(b)
            && a.name == b.name && a.rrset_type == b.rrset_type && a.ttl == b.ttl && a.records
            == b.records && is_apex_marker(a.subname@) && is_apex_marker(b.subname@),
        ResourceRecordSetCommand::Delete(a) => c2 matches ResourceRecordSetCommand::Delete(b)
            && a.name == b.name && a.rrset_type == b.rrset_type && is_apex_marker(a.subname@)
            && is_apex_marker(b.subname@),
        ResourceRecordSetCommand::List(_) => false,
    }
}

/// For every RRset operation, naming the apex by `@` and by the empty
/// subname gives the same request, and in it the subname is absent.
pub proof fn lemma_apex_markers_agree(c1: ResourceRecordSetCommand, c2: ResourceRecordSetCommand)
    requires
        same_apex_operation(c1, c2),
    ensures
        rrset_command_request(c1) == rrset_command_request(c2),
        match rrset_command_request(c1) {
            Request::GetRrset { key } => key.subname is None,
            Request::CreateRrset { key, .. } => key.subname is None,
            Request::DeleteRrset { key } => key.subname is None,
            _ => false,
        },
{
}

/// Any subname other than `@` and the empty one is sent unchanged.
pub proof fn lemma_subname_kept(domain: String, subname: String, rrset_type: String)
    requires
        !is_apex_marker(subname@),
    ensures
        rrset_key(domain, subname, rrset_type).subname == Some(subname),
{
}

/// A policy scope field that is absent or empty.
pub open spec fn is_blank(f: Option<String>) -> bool {
    match f {
        Some(s) => s@.len() == 0,
        None => true,
    }
}

/// Two values of a policy scope field that are equal, or both absent or empty.
pub open spec fn same_scope_input(x: Option<String>, y: Option<String>) -> bool {
    x == y || (is_blank(x) && is_blank(y))
}

/// On creating a token policy, an empty domain, subname or type gives the
/// same request as leaving it out, and that field is absent in the request.
pub proof fn lemma_blank_create_scope(a: TokenPolicyCreateArgs, b: TokenPolicyCreateArgs)
    requires
        a.token_id == b.token_id,
        a.perm_write == b.perm_write,
        same_scope_input(a.domain, b.domain),
        same_scope_input(a.subname, b.subname),
        same_scope_input(a.rrset_type, b.rrset_type),
    ensures
        policy_command_request(TokenPolicyCommand::Create(a)) == policy_command_request(
            TokenPolicyCommand::Create(b),
        ),
        is_blank(a.domain) ==> policy_scope(a.domain, a.subname, a.rrset_type, a.perm_write).domain is None,
        is_blank(a.subname) ==> policy_scope(a.domain, a.subname, a.rrset_type, a.perm_write).subname is None,
        is_blank(a.rrset_type) ==> policy_scope(a.domain, a.subname, a.rrset_type, a.perm_write).rrset_type is None,
{
}

/// On changing a token policy, an empty domain, subname or type gives the
/// same request as leaving it out, and that field is absent in the request.
pub proof fn lemma_blank_patch_scope(a: TokenPolicyPatchArgs, b: TokenPolicyPatchArgs)
    requires
        a.token_id == b.token_id,
        a.policy_id == b.policy_id,
        a.perm_write == b.perm_write,
        same_scope_input(a.domain, b.domain),
        same_scope_input(a.subname, b.subname),
        same_scope_input(a.rrset_type, b.rrset_type),
    ensures
        policy_command_request(TokenPolicyCommand::Patch(a)) == policy_command_request(
            TokenPolicyCommand::Patch(b),
        ),
        is_blank(a.domain) ==> policy_scope(a.domain, a.subname, a.rrset_type, a.perm_write).domain is None,
        is_blank(a.subname) ==> policy_scope(a.domain, a.subname, a.rrset_type, a.perm_write).subname is None,
        is_blank(a.rrset_type) ==> policy_scope(a.domain, a.subname, a.rrset_type, a.perm_write).rrset_type is None,
{
}

/// Brings a subname into its canonical form.
pub fn normalize_subname(subname: String) -> (r: Option<String>)
    ensures
        r == canonical_subname(subname),
{
    let n = subname.as_str().unicode_len();
    if n == 0 {
        None
    } else if n == 1 && subname.as_str().get_char(0) == '@' {
        proof {
            assert(subname@ =~= seq!['@']);
        }
        None
    } else {
        Some(subname)
    }
}

/// Turns an empty policy scope field into an absent one.
pub fn normalize_scope_field(f: Option<String>) -> (r: Option<String>)
    ensures
        r == scope_field(f),
{
    match f {
        Some(s) => if s.as_str().is_empty() {
            None
        } else {
            Some(s)
        },
        None => None,
    }
}

impl RrsetKey {
    /// The key of an RRset, its subname in canonical form.
    pub fn new(domain: String, subname: String, rrset_type: String) -> (r: RrsetKey)
        ensures
            r == rrset_key(domain, subname, rrset_type),
    {
        RrsetKey { domain, subname: normalize_subname(subname), rrset_type }
    }
}

/// Registers an account with a solved captcha, optionally with a first domain.
pub fn register_request(args: RegisterArgs) -> (r: Request)
    ensures
        r == account_command_request(AccountCommand::Register(args)),
{
    Request::Register {
        email: args.email,
        password: args.password,
        captcha_id: args.id,
        captcha_solution: args.solution,
        domain: args.domain,
    }
}

/// Fetches one RRset; the apex may be written `@` or left empty.
pub fn get_rrset_request(args: ResourceRecordSetGetArgs) -> (r: Request)
    ensures
        r == rrset_command_request(ResourceRecordSetCommand::Get(args)),
{
    Request::GetRrset { key: RrsetKey::new(args.name, args.subname, args.rrset_type) }
}

/// Creates an RRset. The ttl and the records are sent as given: an empty
/// record list is a valid request, and the server judges the ttl.
pub fn create_rrset_request(args: ResourceRecordSetCreateArgs) -> (r: Request)
    ensures
        r == rrset_command_request(ResourceRecordSetCommand::Create(args)),
{
    Request::CreateRrset {
        key: RrsetKey::new(args.name, args.subname, args.rrset_type),
        ttl: args.ttl,
        records: args.records,
    }
}

/// Deletes an RRset; deleting one that does not exist succeeds.
pub fn delete_rrset_request(args: ResourceRecordSetDeleteArgs) -> (r: Request)
    ensures
        r == rrset_command_request(ResourceRecordSetCommand::Delete(args)),
{
    Request::DeleteRrset { key: RrsetKey::new(args.name, args.subname, args.rrset_type) }
}

/// Creates a token; only the fields given are sent.
pub fn create_token_request(args: TokenCreateArgs) -> (r: Request)
    ensures
        r == token_command_request(TokenCommand::Create(args)),
{
    Request::CreateToken {
        fields: TokenFields {
            name: args.name,
            subnets: args.subnets,
            can_manage: args.manage,
            max_age: args.max_age,
            max_unused_period: args.max_unused_period,
        },
    }
}

/// Changes a token; only the fields given are sent, the others stay as they are.
pub fn patch_token_request(args: TokenPatchArgs) -> (r: Request)
    ensures
        r == token_command_request(TokenCommand::Patch(args)),
{
    Request::PatchToken {
        token_id: args.token_id,
        fields: TokenFields {
            name: args.name,
            subnets: args.subnets,
            can_manage: args.manage,
            max_age: args.max_age,
            max_unused_period: args.max_unused_period,
        },
    }
}

/// The scope of a policy, with empty domain, subname or type made absent.
pub fn policy_scope_of(
    domain: Option<String>,
    subname: Option<String>,
    rrset_type: Option<String>,
    perm_write: Option<bool>,
) -> (r: PolicyScope)
    ensures
        r == policy_scope(domain, subname, rrset_type, perm_write),
{
    PolicyScope {
        domain: normalize_scope_field(domain),
        subname: normalize_scope_field(subname),
        rrset_type: normalize_scope_field(rrset_type),
        write_permission: perm_write,
    }
}

/// Creates a token policy; with no domain, subname and type it is the default policy.
pub fn create_policy_request(args: TokenPolicyCreateArgs) -> (r: Request)
    ensures
        r == policy_command_request(TokenPolicyCommand::Create(args)),
{
    Request::CreatePolicy {
        token_id: args.token_id,
        scope: policy_scope_of(args.domain, args.subname, args.rrset_type, args.perm_write),
    }
}

/// Changes a token policy; an empty domain, subname or type is sent as absent.
pub fn patch_policy_request(args: TokenPolicyPatchArgs) -> (r: Request)
    ensures
        r == policy_command_request(TokenPolicyCommand::Patch(args)),
{
    Request::PatchPolicy {
        token_id: args.token_id,
        policy_id: args.policy_id,
        scope: policy_scope_of(args.domain, args.subname, args.rrset_type, args.perm_write),
    }
}

pub fn account_request(c: AccountCommand) -> (r: Request)
    ensures
        r == account_command_request(c),
{
    match c {
        AccountCommand::Show => Request::AccountInfo,
        AccountCommand::Captcha => Request::GetCaptcha,
        AccountCommand::Register(a) => register_request(a),
        AccountCommand::Login(a) => Request::Login { email: a.email, password: a.password },
    }
}

pub fn domain_request(c: DomainCommand) -> (r: Request)
    ensures
        r == domain_command_request(c),
{
    match c {
        DomainCommand::Get(a) => Request::GetDomain { name: a.name },
        DomainCommand::List => Request::ListDomains,
        DomainCommand::Create(a) => Request::CreateDomain { name: a.name },
        DomainCommand::Delete(a) => Request::DeleteDomain { name: a.name },
        DomainCommand::Responsible(a) => Request::OwningDomain { name: a.name },
        DomainCommand::Export(a) => Request::ExportZonefile { name: a.name },
    }
}

pub fn rrset_request(c: ResourceRecordSetCommand) -> (r: Request)
    ensures
        r == rrset_command_request(c),
{
    match c {
        ResourceRecordSetCommand::Get(a) => get_rrset_request(a),
        ResourceRecordSetCommand::List(a) => Request::ListRrsets { domain: a.name },
        ResourceRecordSetCommand::Create(a) => create_rrset_request(a),
        ResourceRecordSetCommand::Delete(a) => delete_rrset_request(a),
    }
}

pub fn token_request(c: TokenCommand) -> (r: Request)
    ensures
        r == token_command_request(c),
{
    match c {
        TokenCommand::List => Request::ListTokens,
        TokenCommand::Get(a) => Request::GetToken { token_id: a.token_id },
        TokenCommand::Create(a) => create_token_request(a),
        TokenCommand::Delete(a) => Request::DeleteToken { token_id: a.token_id },
        TokenCommand::Patch(a) => patch_token_request(a),
    }
}

pub fn policy_request(c: TokenPolicyCommand) -> (r: Request)
    ensures
        r == policy_command_request(c),
{
    match c {
        TokenPolicyCommand::List(a) => Request::ListPolicies { token_id: a.token_id },
        TokenPolicyCommand::Get(a) => Request::GetPolicy {
            token_id: a.token_id,
            policy_id: a.policy_id,
        },
        TokenPolicyCommand::Create(a) => create_policy_request(a),
        TokenPolicyCommand::Delete(a) => Request::DeletePolicy {
            token_id: a.token_id,
            policy_id: a.policy_id,
        },
        TokenPolicyCommand::Patch(a) => patch_policy_request(a),
    }
}

/// The request that a command asks for, its inputs normalized.
pub fn build_request(c: Command) -> (r: Request)
    ensures
        r == command_request(c),
{
    match c {
        Command::Account(a) => account_request(a.command),
        Command::Domain(d) => domain_request(d.command),
        Command::ResourceRecordSet(s) => rrset_request(s.command),
        Command::Token(t) => token_request(t.command),
        Command::TokenPolicy(p) => policy_request(p.command),
    }
}

} // verus!
