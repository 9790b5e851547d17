use vstd::prelude::*;

verus! {

/// A parsed command line: global options and one command.
pub struct Cli {
    /// Error messages are suppressed.
    pub quiet: bool,
    /// Throttled requests are not retried.
    pub no_retry: bool,
    /// Longest wait in seconds before one retry of a throttled request.
    pub max_wait: Option<u64>,
    /// Largest number of retries per request.
    pub max_retries: Option<usize>,
    pub command: Command,
}

/// The resource that a command manages.
pub enum Command {
    Account(Account),
    Domain(Domain),
    ResourceRecordSet(ResourceRecordSet),
    Token(Token),
    TokenPolicy(TokenPolicy),
}

pub struct Account {
    pub command: AccountCommand,
}

pub struct Domain {
    pub command: DomainCommand,
}

pub struct ResourceRecordSet {
    pub command: ResourceRecordSetCommand,
}

pub struct Token {
    pub command: TokenCommand,
}

pub struct TokenPolicy {
    pub command: TokenPolicyCommand,
}

#[derive(Clone)]
pub enum AccountCommand {
    /// Show the account's information.
    Show,
    /// Obtain a captcha for a registration.
    Captcha,
    /// Register a new account.
    Register(RegisterArgs),
    /// Exchange email and password for a token.
    Login(LoginArgs),
}

#[derive(Clone)]
pub enum DomainCommand {
    Get(DomainNameArg),
    List,
    Create(DomainNameArg),
    Delete(DomainNameArg),
    /// The domain that is responsible for a DNS name.
    Responsible(DomainNameArg),
    /// The domain as a zone file.
    Export(DomainNameArg),
}

#[derive(Clone)]
pub enum ResourceRecordSetCommand {
    Get(ResourceRecordSetGetArgs),
    List(ResourceRecordSetListArgs),
    Create(ResourceRecordSetCreateArgs),
    Delete(ResourceRecordSetDeleteArgs),
}

#[derive(Clone)]
pub enum TokenCommand {
    List,
    Get(TokenIdArgs),
    Create(TokenCreateArgs),
    Delete(TokenIdArgs),
    Patch(TokenPatchArgs),
}

#[derive(Clone)]
pub enum TokenPolicyCommand {
    List(TokenPolicyListArgs),
    Get(TokenPolicyGetArgs),
    Create(TokenPolicyCreateArgs),
    Delete(TokenPolicyDeleteArgs),
    Patch(TokenPolicyPatchArgs),
}

#[derive(Clone)]
pub struct DomainNameArg {
    pub name: String,
}

#[derive(Clone)]
pub struct RegisterArgs {
    pub email: String,
    pub password: String,
    /// Id of the solved captcha.
    pub id: String,
    /// Solution of the captcha.
    pub solution: String,
    /// A domain to create together with the account.
    pub domain: Option<String>,
}

#[derive(Clone)]
pub struct LoginArgs {
    pub email: String,
    pub password: String,
}

#[derive(Clone)]
pub struct ResourceRecordSetGetArgs {
    /// The domain name.
    pub name: String,
    /// The subname; `@` or empty for the apex.
    pub subname: String,
    pub rrset_type: String,
}

#[derive(Clone)]
pub struct ResourceRecordSetListArgs {
    /// The domain name.
    pub name: String,
}

#[derive(Clone)]
pub struct ResourceRecordSetCreateArgs {
    /// The domain name.
    pub name: String,
    /// The subname; `@` or empty for the apex.
    pub subname: String,
    pub rrset_type: String,
    pub ttl: u64,
    pub records: Vec<String>,
}

#[derive(Clone)]
pub struct ResourceRecordSetDeleteArgs {
    /// The domain name.
    pub name: String,
    /// The subname; `@` or empty for the apex.
    pub subname: String,
    pub rrset_type: String,
}

#[derive(Clone)]
pub struct TokenIdArgs {
    pub token_id: String,
}

#[derive(Clone)]
pub struct TokenCreateArgs {
    pub name: Option<String>,
    /// Subnets the token may be used from.
    pub subnets: Option<Vec<String>>,
    /// Whether the token may manage tokens.
    pub manage: Option<bool>,
    pub max_age: Option<String>,
    /// Unused period after which the token is invalidated.
    pub max_unused_period: Option<String>,
}

#[derive(Clone)]
pub struct TokenPatchArgs {
    pub token_id: String,
    pub name: Option<String>,
    /// Subnets the token may be used from.
    pub subnets: Option<Vec<String>>,
    /// Whether the token may manage tokens.
    pub manage: Option<bool>,
    pub max_age: Option<String>,
    /// Unused period after which the token is invalidated.
    pub max_unused_period: Option<String>,
}

#[derive(Clone)]
pub struct TokenPolicyListArgs {
    pub token_id: String,
}

#[derive(Clone)]
pub struct TokenPolicyGetArgs {
    pub token_id: String,
    pub policy_id: String,
}

#[derive(Clone)]
pub struct TokenPolicyDeleteArgs {
    pub token_id: String,
    pub policy_id: String,
}

#[derive(Clone)]
pub struct TokenPolicyCreateArgs {
    pub token_id: String,
    /// Domain the policy applies to; absent or empty for the default policy.
    pub domain: Option<String>,
    /// Subname the policy applies to; absent or empty for the default policy.
    pub subname: Option<String>,
    /// Record type the policy applies to; absent or empty for the default policy.
    pub rrset_type: Option<String>,
    /// Write permission on the RRsets the policy covers.
    pub perm_write: Option<bool>,
}

#[derive(Clone)]
pub struct TokenPolicyPatchArgs {
    pub token_id: String,
    pub policy_id: String,
    /// Domain the policy applies to; absent or empty for the default policy.
    pub domain: Option<String>,
    /// Subname the policy applies to; absent or empty for the default policy.
    pub subname: Option<String>,
    /// Record type the policy applies to; absent or empty for the default policy.
    pub rrset_type: Option<String>,
    /// Write permission on the RRsets the policy covers.
    pub perm_write: Option<bool>,
}

} // verus!
