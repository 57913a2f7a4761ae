//! Choosing the credential for a connection to a remote.
//!
//! The choice is made in two steps. [`plan_credential`] decides, from the
//! endpoint and from what was found on disk, what to try; it touches nothing
//! outside its arguments. [`resolve_credential`] gathers what the plan needs and
//! carries it out. A failure on the way never becomes an error of the
//! connection: it only leads to a weaker credential.

use vstd::prelude::*;
use crate::git::backend::{
    cred_default, cred_ssh_key, cred_ssh_key_from_agent, cred_userpass_plaintext, spec_credtype,
    CREDTYPE_DEFAULT, CREDTYPE_SSH_KEY, CREDTYPE_USERPASS_PLAINTEXT,
};
use crate::text::{chars_of, concat, starts_with, string_of, str_starts_with};
use crate::utils::path::file_exists;

verus! {

/// The greatest number of characters of an endpoint handed to the credential
/// helper.
pub const MAX_URL_CHARS: usize = 2048;

/// The user name for key-pair authentication where the endpoint names none.
pub open spec fn spec_default_username() -> Seq<char> {
    "git"@
}

/// Whether the endpoint starts with one of the schemes for which the credential
/// helper may be asked.
pub open spec fn spec_scheme_allowed(url: Seq<char>) -> bool {
    ||| "http://"@.is_prefix_of(url)
    ||| "https://"@.is_prefix_of(url)
    ||| "git://"@.is_prefix_of(url)
    ||| "ssh://"@.is_prefix_of(url)
}

/// The characters that are removed from an endpoint before it is handed to
/// another process.
pub open spec fn is_shell_meta(c: char) -> bool {
    c == ';' || c == '|' || c == '&' || c == '$' || c == '`' || c == '\n' || c == '\r'
}

/// The endpoint without the characters of [`is_shell_meta`].
pub open spec fn spec_strip_shell_meta(url: Seq<char>) -> Seq<char> {
    url.filter(|c: char| !is_shell_meta(c))
}

/// The endpoint as the credential helper may see it: stripped of shell
/// metacharacters, provided that its scheme is allowed and that what is left has
/// at most [`MAX_URL_CHARS`] characters.
pub open spec fn spec_sanitize_url(url: Seq<char>) -> Option<Seq<char>> {
    if spec_scheme_allowed(url) && spec_strip_shell_meta(url).len() <= MAX_URL_CHARS {
        Some(spec_strip_shell_meta(url))
    } else {
        None
    }
}

/// Whether `c` is one of the characters of [`is_shell_meta`].
fn shell_meta(c: char) -> (b: bool)
    ensures
        b == is_shell_meta(c),
{
    c == ';' || c == '|' || c == '&' || c == '$' || c == '`' || c == '\n' || c == '\r'
}

/// Whether the scheme of `url` is allowed: see [`spec_scheme_allowed`].
pub fn scheme_allowed(url: &str) -> (b: bool)
    ensures
        b == spec_scheme_allowed(url@),
{
    str_starts_with(url, "http://") || str_starts_with(url, "https://") || str_starts_with(
        url,
        "git://",
    ) || str_starts_with(url, "ssh://")
}

/// Computes [`spec_sanitize_url`].
pub fn sanitize_url(url: &str) -> (r: Option<String>)
    ensures
        crate::text::opt_view(r) == spec_sanitize_url(url@),
{
    if !scheme_allowed(url) {
        return None;
    }
    let chars = chars_of(url);
    let mut kept: Vec<char> = Vec::new();
    let mut i: usize = 0;
    while i < chars.len()
        invariant
            i <= chars.len(),
            kept@ == spec_strip_shell_meta(chars@.take(i as int)),
        decreases chars.len() - i,
    {
        let c = chars[i];
        proof {
            assert(chars@.take(i + 1).drop_last() =~= chars@.take(i as int));
            reveal(Seq::filter);
        }
        if !shell_meta(c) {
            kept.push(c);
        }
        i += 1;
    }
    assert(chars@.take(chars.len() as int) =~= chars@);
    if kept.len() > MAX_URL_CHARS {
        return None;
    }
    Some(string_of(&kept))
}

/// What is written to the credential helper for an endpoint: one `url=` line
/// and an empty line.
pub open spec fn spec_helper_request(url: Seq<char>) -> Seq<char> {
    "url="@ + url + "\n\n"@
}

/// Computes [`spec_helper_request`].
pub fn helper_request(url: &str) -> (out: String)
    ensures
        out@ == spec_helper_request(url@),
{
    let mut out = concat("url=", url);
    out.append("\n\n");
    out
}

/// The pieces of a text between its line feeds. A text without line feed is one
/// piece; a text that ends in a line feed has an empty last piece.
pub open spec fn spec_pieces(text: Seq<char>) -> Seq<Seq<char>>
    decreases text.len(),
{
    if text.len() == 0 {
        seq![Seq::<char>::empty()]
    } else {
        let before = spec_pieces(text.drop_last());
        if text.last() == '\n' {
            before.push(Seq::<char>::empty())
        } else {
            before.drop_last().push(before.last().push(text.last()))
        }
    }
}

/// A line without the carriage return that may end it.
pub open spec fn spec_strip_cr(line: Seq<char>) -> Seq<char> {
    if line.len() > 0 && line.last() == '\r' {
        line.drop_last()
    } else {
        line
    }
}

/// Every line of the list without the carriage return that may end it.
pub open spec fn spec_strip_each(lines: Seq<Seq<char>>) -> Seq<Seq<char>> {
    lines.map_values(|p: Seq<char>| spec_strip_cr(p))
}

/// The lines of a text. Every line feed ends a line, and a carriage return
/// directly before it belongs to the line ending. What follows the last line
/// feed is a line too, unless it is empty.
pub open spec fn spec_lines(text: Seq<char>) -> Seq<Seq<char>> {
    let pieces = spec_pieces(text);
    let ended = spec_strip_each(pieces.drop_last());
    if pieces.last().len() == 0 {
        ended
    } else {
        ended.push(pieces.last())
    }
}

/// The value of the last line that starts with `key`: what follows the key on
/// that line. `None` where no line starts with it.
pub open spec fn spec_field(lines: Seq<Seq<char>>, key: Seq<char>) -> Option<Seq<char>>
    decreases lines.len(),
{
    if lines.len() == 0 {
        None
    } else if key.is_prefix_of(lines.last()) {
        Some(lines.last().skip(key.len() as int))
    } else {
        spec_field(lines.drop_last(), key)
    }
}

/// A text always has at least one piece.
pub proof fn lemma_pieces_nonempty(text: Seq<char>)
    ensures
        spec_pieces(text).len() >= 1,
    decreases text.len(),
{
    if text.len() > 0 {
        lemma_pieces_nonempty(text.drop_last());
    }
}

/// The views of the lines held in `lines`.
pub open spec fn line_views(lines: Seq<Vec<char>>) -> Seq<Seq<char>> {
    lines.map_values(|l: Vec<char>| l@)
}

/// Splits a text into its lines: see [`spec_lines`].
pub fn lines_of(text: &Vec<char>) -> (out: Vec<Vec<char>>)
    ensures
        line_views(out@) == spec_lines(text@),
{
    let mut done: Vec<Vec<char>> = Vec::new();
    let mut cur: Vec<char> = Vec::new();
    let mut i: usize = 0;
    proof {
        assert(text@.take(0) =~= Seq::<char>::empty());
        assert(line_views(done@) =~= spec_strip_each(spec_pieces(text@.take(0)).drop_last()));
    }
    while i < text.len()
        invariant
            i <= text.len(),
            line_views(done@) == spec_strip_each(spec_pieces(text@.take(i as int)).drop_last()),
            cur@ == spec_pieces(text@.take(i as int)).last(),
        decreases text.len() - i,
    {
        let c = text[i];
        let ghost before = spec_pieces(text@.take(i as int));
        let ghost after = spec_pieces(text@.take(i + 1));
        proof {
            assert(text@.take(i + 1).drop_last() =~= text@.take(i as int));
            lemma_pieces_nonempty(text@.take(i as int));
        }
        if c == '\n' {
            let mut line = cur;
            let n = line.len();
            if n > 0 && line[n - 1] == '\r' {
                line.pop();
            }
            proof {
                assert(line@ =~= spec_strip_cr(before.last()));
                assert(after.drop_last() =~= before);
                assert(before =~= before.drop_last().push(before.last()));
                assert(line_views(done@.push(line)) =~= line_views(done@).push(line@));
                assert(spec_strip_each(before) =~= spec_strip_each(before.drop_last()).push(
                    spec_strip_cr(before.last()),
                ));
            }
            done.push(line);
            cur = Vec::new();
        } else {
            proof {
                assert(after.drop_last() =~= before.drop_last());
            }
            cur.push(c);
        }
        i += 1;
    }
    proof {
        assert(text@.take(text.len() as int) =~= text@);
        lemma_pieces_nonempty(text@);
    }
    if cur.len() > 0 {
        proof {
            assert(line_views(done@.push(cur)) =~= line_views(done@).push(cur@));
        }
        done.push(cur);
    }
    done
}

/// The value of the last line of `lines` that starts with `key`: see
/// [`spec_field`].
pub fn field_of(lines: &Vec<Vec<char>>, key: &str) -> (r: Option<String>)
    ensures
        crate::text::opt_view(r) == spec_field(line_views(lines@), key@),
{
    let key_chars = chars_of(key);
    let mut i: usize = lines.len();
    assert(line_views(lines@).take(i as int) =~= line_views(lines@));
    while i > 0
        invariant
            i <= lines.len(),
            key_chars@ == key@,
            spec_field(line_views(lines@), key@) == spec_field(
                line_views(lines@).take(i as int),
                key@,
            ),
        decreases i,
    {
        let line = &lines[i - 1];
        proof {
            let upto = line_views(lines@).take(i as int);
            assert(upto.last() == line@);
            assert(upto.drop_last() =~= line_views(lines@).take(i - 1));
        }
        if starts_with(line, &key_chars) {
            let mut value: Vec<char> = Vec::new();
            let mut j: usize = key_chars.len();
            while j < line.len()
                invariant
                    key_chars.len() <= j <= line.len(),
                    value@ == line@.subrange(key_chars.len() as int, j as int),
                decreases line.len() - j,
            {
                value.push(line[j]);
                assert(line@.subrange(key_chars.len() as int, j + 1) =~= line@.subrange(
                    key_chars.len() as int,
                    j as int,
                ).push(line@[j as int]));
                j += 1;
            }
            assert(value@ =~= line@.skip(key_chars.len() as int));
            return Some(string_of(&value));
        }
        i -= 1;
    }
    proof {
        assert(line_views(lines@).take(0) =~= Seq::<Seq<char>>::empty());
    }
    None
}

/// A user name and a password, as the credential helper reported them.
#[derive(Debug, Clone)]
pub struct UserPass {
    pub username: String,
    pub password: String,
}

/// What the credential helper reported: the values of the last `username=` line
/// and of the last `password=` line of its output, where it printed both.
pub open spec fn spec_helper_reply(output: Seq<char>) -> Option<(Seq<char>, Seq<char>)> {
    let lines = spec_lines(output);
    match (spec_field(lines, "username="@), spec_field(lines, "password="@)) {
        (Some(u), Some(p)) => Some((u, p)),
        _ => None,
    }
}

/// Reads the output of the credential helper: see [`spec_helper_reply`].
pub fn parse_helper_reply(output: &str) -> (r: Option<UserPass>)
    ensures
        match r {
            Some(up) => spec_helper_reply(output@) == Some((up.username@, up.password@)),
            None => spec_helper_reply(output@) is None,
        },
{
    let chars = chars_of(output);
    let lines = lines_of(&chars);
    let username = field_of(&lines, "username=");
    let password = field_of(&lines, "password=");
    match (username, password) {
        (Some(username), Some(password)) => Some(UserPass { username, password }),
        _ => None,
    }
}

/// One private key that may identify the user, with its public key, and which of
/// the two files were found on disk.
#[derive(Debug, Clone)]
pub struct IdentityProbe {
    pub private_key: String,
    pub public_key: String,
    pub private_exists: bool,
    pub public_exists: bool,
}

/// A key pair to authenticate with; the public key is optional.
#[derive(Debug, Clone)]
pub struct KeyPair {
    pub private_key: String,
    pub public_key: Option<String>,
}

/// What to try in order to authenticate.
#[derive(Debug, Clone)]
pub enum CredentialPlan {
    /// Each of the key pairs in turn, for this user; where none of them can be
    /// used, the SSH agent.
    KeyPairs { username: String, pairs: Vec<KeyPair> },
    /// The credential helper, asked with this request.
    Helper { request: String },
    /// No credential of the user's: the default one.
    Anonymous,
}

/// The names of the private keys that are looked for, in the order in which they
/// are tried.
pub open spec fn spec_identity_names() -> Seq<Seq<char>> {
    seq!["id_ed25519"@, "id_rsa"@, "id_ecdsa"@]
}

/// Where the private key called `name` is kept below the home directory.
pub open spec fn spec_private_key_path(home: Seq<char>, name: Seq<char>) -> Seq<char> {
    home + "/.ssh/"@ + name
}

/// Where the public key of a private key is kept.
pub open spec fn spec_public_key_path(private_key: Seq<char>) -> Seq<char> {
    private_key + ".pub"@
}

/// The key pair that an identity gives where its private key exists.
pub open spec fn spec_key_pair(probe: IdentityProbe) -> (Seq<char>, Option<Seq<char>>) {
    (
        probe.private_key@,
        if probe.public_exists {
            Some(probe.public_key@)
        } else {
            None
        },
    )
}

/// The key pairs to try: one for each identity whose private key exists, in the
/// order of the identities.
pub open spec fn spec_key_pairs(probes: Seq<IdentityProbe>) -> Seq<(Seq<char>, Option<Seq<char>>)>
    decreases probes.len(),
{
    if probes.len() == 0 {
        seq![]
    } else if probes.last().private_exists {
        spec_key_pairs(probes.drop_last()).push(spec_key_pair(probes.last()))
    } else {
        spec_key_pairs(probes.drop_last())
    }
}

/// The key pairs of a list, as values of the model.
pub open spec fn key_pair_views(pairs: Seq<KeyPair>) -> Seq<(Seq<char>, Option<Seq<char>>)> {
    pairs.map_values(|p: KeyPair| (p.private_key@, crate::text::opt_view(p.public_key)))
}

/// The model of a [`CredentialPlan`].
pub enum PlanView {
    KeyPairs { username: Seq<char>, pairs: Seq<(Seq<char>, Option<Seq<char>>)> },
    Helper { request: Seq<char> },
    Anonymous,
}

impl View for CredentialPlan {
    type V = PlanView;

    open spec fn view(&self) -> PlanView {
        match self {
            CredentialPlan::KeyPairs { username, pairs } => PlanView::KeyPairs {
                username: username@,
                pairs: key_pair_views(pairs@),
            },
            CredentialPlan::Helper { request } => PlanView::Helper { request: request@ },
            CredentialPlan::Anonymous => PlanView::Anonymous,
        }
    }
}

/// The plan for an endpoint.
///
/// Where the endpoint accepts key pairs, they are tried for the user that the
/// endpoint names, or for `git`. Otherwise the credential helper is asked,
/// provided that the endpoint can be handed to it (see [`spec_sanitize_url`]);
/// where it cannot, the connection is anonymous.
pub open spec fn spec_plan(
    url: Seq<char>,
    username_from_url: Option<Seq<char>>,
    allows_key_pair: bool,
    probes: Seq<IdentityProbe>,
) -> PlanView {
    if allows_key_pair {
        PlanView::KeyPairs {
            username: match username_from_url {
                Some(u) => u,
                None => spec_default_username(),
            },
            pairs: spec_key_pairs(probes),
        }
    } else {
        match spec_sanitize_url(url) {
            Some(clean) => PlanView::Helper { request: spec_helper_request(clean) },
            None => PlanView::Anonymous,
        }
    }
}

/// The view of an optional borrowed string.
pub open spec fn opt_str_view(o: Option<&str>) -> Option<Seq<char>> {
    match o {
        Some(s) => Some(s@),
        None => None,
    }
}

/// The key pairs to try for the identities found: see [`spec_key_pairs`].
pub fn key_pairs_to_try(probes: &Vec<IdentityProbe>) -> (pairs: Vec<KeyPair>)
    ensures
        key_pair_views(pairs@) == spec_key_pairs(probes@),
{
    let mut pairs: Vec<KeyPair> = Vec::new();
    let mut i: usize = 0;
    assert(probes@.take(0) =~= Seq::<IdentityProbe>::empty());
    while i < probes.len()
        invariant
            i <= probes.len(),
            key_pair_views(pairs@) =~= spec_key_pairs(probes@.take(i as int)),
        decreases probes.len() - i,
    {
        let probe = &probes[i];
        proof {
            assert(probes@.take(i + 1).drop_last() =~= probes@.take(i as int));
            assert(probes@.take(i + 1).last() == probes@[i as int]);
        }
        if probe.private_exists {
            let public_key = if probe.public_exists {
                Some(probe.public_key.clone())
            } else {
                None
            };
            let pair = KeyPair { private_key: probe.private_key.clone(), public_key };
            proof {
                assert(key_pair_views(pairs@.push(pair)) =~= key_pair_views(pairs@).push(
                    spec_key_pair(probes@[i as int]),
                ));
            }
            pairs.push(pair);
        }
        i += 1;
    }
    assert(probes@.take(probes.len() as int) =~= probes@);
    pairs
}

/// Decides what to try for an endpoint: see [`spec_plan`].
pub fn plan_credential(
    url: &str,
    username_from_url: Option<&str>,
    allows_key_pair: bool,
    probes: &Vec<IdentityProbe>,
) -> (plan: CredentialPlan)
    ensures
        plan@ == spec_plan(url@, opt_str_view(username_from_url), allows_key_pair, probes@),
{
    if allows_key_pair {
        let username = match username_from_url {
            Some(u) => u.to_owned(),
            None => "git".to_owned(),
        };
        CredentialPlan::KeyPairs { username, pairs: key_pairs_to_try(probes) }
    } else {
        match sanitize_url(url) {
            Some(clean) => CredentialPlan::Helper { request: helper_request(clean.as_str()) },
            None => CredentialPlan::Anonymous,
        }
    }
}

/// The identity with the private key called `name` below `home`, with what the
/// disk holds of it.
fn probe_identity(home: &str, name: &str) -> (probe: IdentityProbe)
    ensures
        probe.private_key@ == spec_private_key_path(home@, name@),
        probe.public_key@ == spec_public_key_path(probe.private_key@),
{
    let mut private_key = concat(home, "/.ssh/");
    private_key.append(name);
    let public_key = concat(private_key.as_str(), ".pub");
    let private_exists = file_exists(private_key.as_str());
    let public_exists = file_exists(public_key.as_str());
    IdentityProbe { private_key, public_key, private_exists, public_exists }
}

/// Looks below `home` for the identities of [`spec_identity_names`], in their
/// order. Without a home directory (`home` empty) there is none to look for.
/// Which files exist is for the disk to say; where they are looked for is fixed.
pub fn probe_identities(home: &str) -> (probes: Vec<IdentityProbe>)
    ensures
        home@.len() == 0 ==> probes@.len() == 0,
        home@.len() > 0 ==> probes@.len() == spec_identity_names().len(),
        forall|i: int|
            0 <= i < probes@.len() ==> {
                &&& (#[trigger] probes@[i]).private_key@ == spec_private_key_path(
                    home@,
                    spec_identity_names()[i],
                )
                &&& probes@[i].public_key@ == spec_public_key_path(probes@[i].private_key@)
            },
{
    let mut probes: Vec<IdentityProbe> = Vec::new();
    if home.is_empty() {
        return probes;
    }
    probes.push(probe_identity(home, "id_ed25519"));
    probes.push(probe_identity(home, "id_rsa"));
    probes.push(probe_identity(home, "id_ecdsa"));
    probes
}

/// Builds the credential for key-pair authentication: the first of the pairs
/// that libgit2 accepts, or else one that asks the SSH agent. Either way it is
/// an SSH key credential.
fn key_pair_credential(username: &str, pairs: &Vec<KeyPair>) -> (r: Result<
    git2::Cred,
    git2::Error,
>)
    ensures
        r matches Ok(cred) ==> spec_credtype(cred) == CREDTYPE_SSH_KEY,
{
    let mut i: usize = 0;
    while i < pairs.len()
        invariant
            i <= pairs.len(),
        decreases pairs.len() - i,
    {
        let pair = &pairs[i];
        let public_key: Option<&str> = match &pair.public_key {
            Some(p) => Some(p.as_str()),
            None => None,
        };
        match cred_ssh_key(username, public_key, pair.private_key.as_str()) {
            Ok(cred) => {
                return Ok(cred);
            },
            Err(_) => {},
        }
        i += 1;
    }
    cred_ssh_key_from_agent(username)
}

/// The kind of credential that the credential helper's answer gives: user name
/// and password where the helper ran and reported both, the default credential
/// otherwise. `None` stands for a helper that could not be run or that failed.
pub open spec fn spec_helper_credtype(output: Option<String>) -> u32 {
    match output {
        Some(text) => if spec_helper_reply(text@) is Some {
            CREDTYPE_USERPASS_PLAINTEXT
        } else {
            CREDTYPE_DEFAULT
        },
        None => CREDTYPE_DEFAULT,
    }
}

/// Builds the credential that the credential helper's answer gives: one of
/// the user name and the password that it reported, where it reported both,
/// and the default credential otherwise. `None` stands for a helper that could
/// not be run or that failed. The helper's failure is never an error here.
pub fn helper_credential(output: Option<String>) -> (r: Result<git2::Cred, git2::Error>)
    ensures
        r matches Ok(cred) ==> spec_credtype(cred) == spec_helper_credtype(output),
{
    let reply = match output {
        Some(text) => parse_helper_reply(text.as_str()),
        None => None,
    };
    match reply {
        Some(up) => cred_userpass_plaintext(up.username.as_str(), up.password.as_str()),
        None => cred_default(),
    }
}

/// Produces the credential for a connection to `url`.
///
/// `allows_key_pair` says whether the endpoint accepts key-pair authentication,
/// `home` is the user's home directory (empty where it is not known), and
/// `helper` runs the credential helper: it is handed the request and returns
/// what the helper printed, or `None` where the helper could not be run or
/// failed. The plan of [`plan_credential`] is followed; the helper is called at
/// most once, and only where the plan asks for it.
///
/// Where key pairs are accepted, the credential is an SSH key credential: one
/// of the key files found below `home`, or the agent's. Otherwise, an endpoint
/// that may not be handed to the helper gets the default credential; for any
/// other the helper is asked with the request of [`spec_helper_request`] for
/// the sanitized endpoint, and its answer decides as
/// [`spec_helper_credtype`] says.
pub fn resolve_credential<F: Fn(String) -> Option<String>>(
    url: &str,
    username_from_url: Option<&str>,
    allows_key_pair: bool,
    home: &str,
    helper: &F,
) -> (r: Result<git2::Cred, git2::Error>)
    requires
        forall|request: String| helper.requires((request,)),
    ensures
        allows_key_pair ==> (r matches Ok(cred) ==> spec_credtype(cred) == CREDTYPE_SSH_KEY),
        !allows_key_pair && spec_sanitize_url(url@) is None ==> (r matches Ok(cred)
            ==> spec_credtype(cred) == CREDTYPE_DEFAULT),
        !allows_key_pair && spec_sanitize_url(url@) is Some ==> exists|
            request: String,
            output: Option<String>,
        |
            {
                &&& request@ == spec_helper_request(spec_sanitize_url(url@)->0)
                &&& #[trigger] helper.ensures((request,), output)
                &&& r matches Ok(cred) ==> spec_credtype(cred) == spec_helper_credtype(output)
            },
{
    let probes = if allows_key_pair {
        probe_identities(home)
    } else {
        Vec::new()
    };
    match plan_credential(url, username_from_url, allows_key_pair, &probes) {
        CredentialPlan::KeyPairs { username, pairs } => key_pair_credential(
            username.as_str(),
            &pairs,
        ),
        CredentialPlan::Helper { request } => {
            let ghost asked = request;
            let output = helper(request);
            let ghost answer = output;
            let r = helper_credential(output);
            assert(helper.ensures((asked,), answer));
            r
        },
        CredentialPlan::Anonymous => cred_default(),
    }
}

} // verus!
