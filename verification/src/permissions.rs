//! Permission levels, role-based access control and input screening.

use vstd::prelude::*;
use crate::text::{
    ascii_lowercase, debug_quoted, debug_text, is_ascii_text, join,
    chars_eq, chars_eq_ignore_ascii_case, chars_of, contains, contains_chars, eq_ignore_ascii_case,
    lit, lowercase, starts_with, starts_with_chars, parse_setting_list, parse_unsigned, push_all, seqs_of, setting_list,
    string_from_chars, strs, to_lowercase, trim, trim_chars, unsigned_value,
};

verus! {

broadcast use vstd::string::group_string_axioms;

/// Whether the server lets tools write, or only read.
#[derive(Debug, Clone, Copy, PartialEq, Eq, Structural)]
pub enum PermissionLevel {
    ReadOnly,
    ReadWrite,
}

/// The level that a `PERMISSIONS_MODE` value selects, given the value lowercased.
pub open spec fn level_for(lower_mode: Seq<char>) -> PermissionLevel {
    if lower_mode == "readwrite"@ || lower_mode == "rw"@ {
        PermissionLevel::ReadWrite
    } else {
        PermissionLevel::ReadOnly
    }
}

/// The text of an optional setting, or `default` when it is absent.
pub open spec fn setting_or(value: Option<String>, default: Seq<char>) -> Seq<char> {
    match value {
        Some(s) => s@,
        None => default,
    }
}

/// Whether `level` may run an operation that needs `required`.
pub open spec fn permits(level: PermissionLevel, required: PermissionLevel) -> bool {
    level == PermissionLevel::ReadWrite || required == PermissionLevel::ReadOnly
}

impl PermissionLevel {
    /// The level for the value of `PERMISSIONS_MODE` (absent: read-only).
    /// "readwrite" and "rw", in any case, select read-write; anything else read-only.
    pub fn from_env_value(value: Option<String>) -> (r: PermissionLevel)
        ensures
            r == level_for(lowercase(setting_or(value, Seq::empty()))),
            is_ascii_text(setting_or(value, Seq::empty())) ==> r == level_for(
                ascii_lowercase(setting_or(value, Seq::empty())),
            ),
            value is None ==> r == PermissionLevel::ReadOnly,
    {
        let v: Vec<char> = match value {
            Some(s) => chars_of(s.as_str()),
            None => Vec::new(),
        };
        let lower = to_lowercase(v.as_slice());
        proof {
            reveal_strlit("readwrite");
            reveal_strlit("rw");
            if value is None {
                assert(ascii_lowercase(v@) =~= Seq::<char>::empty());
            }
        }
        PermissionLevel::from_lowercase_mode(lower.as_slice())
    }

    /// The level for a `PERMISSIONS_MODE` value that is already lowercased.
    pub fn from_lowercase_mode(lower: &[char]) -> (r: PermissionLevel)
        ensures
            r == level_for(lower@),
    {
        if chars_eq(lower, lit("readwrite").as_slice()) || chars_eq(lower, lit("rw").as_slice()) {
            PermissionLevel::ReadWrite
        } else {
            PermissionLevel::ReadOnly
        }
    }

    /// Read-write may run everything; read-only only what needs read-only.
    pub fn can_execute(&self, required: PermissionLevel) -> (b: bool)
        ensures
            b == permits(*self, required),
    {
        match (self, required) {
            (PermissionLevel::ReadWrite, _) => true,
            (PermissionLevel::ReadOnly, PermissionLevel::ReadOnly) => true,
            (PermissionLevel::ReadOnly, PermissionLevel::ReadWrite) => false,
        }
    }

    /// A human-readable label for the level.
    pub fn as_str(&self) -> (s: &'static str)
        ensures
            s@ == (match *self {
                PermissionLevel::ReadOnly => "ReadOnly"@,
                PermissionLevel::ReadWrite => "ReadWrite"@,
            }),
    {
        match self {
            PermissionLevel::ReadOnly => "ReadOnly",
            PermissionLevel::ReadWrite => "ReadWrite",
        }
    }
}

/// Read-write can run any operation; read-only can run exactly the read-only ones;
/// and the relation is a preorder: reflexive and transitive.
pub proof fn law_permission_order(a: PermissionLevel, b: PermissionLevel, c: PermissionLevel)
    ensures
        permits(PermissionLevel::ReadWrite, a),
        permits(PermissionLevel::ReadOnly, a) <==> a == PermissionLevel::ReadOnly,
        permits(a, a),
        permits(a, b) && permits(b, c) ==> permits(a, c),
{
}

/// A user's role.
#[derive(Debug, Clone, Copy, PartialEq, Eq, Structural)]
pub enum UserRole {
    /// Full access to all sources, categories and admin functions.
    Admin,
    /// Query access to allowed sources and categories, no admin.
    Analyst,
    /// Read-only access to allowed sources, no AI queries.
    Viewer,
}

/// The role that a role name selects, given the name lowercased.
pub open spec fn role_for(lower_name: Seq<char>) -> UserRole {
    if lower_name == "admin"@ {
        UserRole::Admin
    } else if lower_name == "analyst"@ {
        UserRole::Analyst
    } else {
        UserRole::Viewer
    }
}

/// The name that `Debug` prints for a role.
pub open spec fn role_name(r: UserRole) -> Seq<char> {
    match r {
        UserRole::Admin => "Admin"@,
        UserRole::Analyst => "Analyst"@,
        UserRole::Viewer => "Viewer"@,
    }
}

/// Admins and analysts may query.
pub open spec fn role_can_query(r: UserRole) -> bool {
    r == UserRole::Admin || r == UserRole::Analyst
}

/// Only admins may administer.
pub open spec fn role_can_admin(r: UserRole) -> bool {
    r == UserRole::Admin
}

impl UserRole {
    /// The role for a name: "admin" and "analyst" in any case, anything else viewer.
    pub fn from_str(s: &str) -> (r: UserRole)
        ensures
            r == role_for(lowercase(s@)),
            is_ascii_text(s@) ==> r == role_for(ascii_lowercase(s@)),
    {
        let lower = to_lowercase(chars_of(s).as_slice());
        UserRole::from_lowercase_name(lower.as_slice())
    }

    /// The role for a name that is already lowercased.
    pub fn from_lowercase_name(lower: &[char]) -> (r: UserRole)
        ensures
            r == role_for(lower@),
    {
        if chars_eq(lower, lit("admin").as_slice()) {
            UserRole::Admin
        } else if chars_eq(lower, lit("analyst").as_slice()) {
            UserRole::Analyst
        } else {
            UserRole::Viewer
        }
    }

    pub fn can_query(&self) -> (b: bool)
        ensures
            b == role_can_query(*self),
    {
        match self {
            UserRole::Admin | UserRole::Analyst => true,
            UserRole::Viewer => false,
        }
    }

    pub fn can_admin(&self) -> (b: bool)
        ensures
            b == role_can_admin(*self),
    {
        match self {
            UserRole::Admin => true,
            _ => false,
        }
    }

    /// All roles can view.
    pub fn can_view(&self) -> (b: bool)
        ensures
            b,
    {
        true
    }

    /// The name that `Debug` prints for the role.
    pub fn name(&self) -> (s: &'static str)
        ensures
            s@ == role_name(*self),
    {
        match self {
            UserRole::Admin => "Admin",
            UserRole::Analyst => "Analyst",
            UserRole::Viewer => "Viewer",
        }
    }
}

/// Roles are ordered: whoever may administer may query; the viewer alone may not query.
pub proof fn law_role_hierarchy(r: UserRole)
    ensures
        role_can_admin(r) ==> role_can_query(r),
        !role_can_query(r) <==> r == UserRole::Viewer,
{
}

/// Security context for a user session.
#[derive(Debug, Clone)]
pub struct SecurityContext {
    pub user_id: String,
    pub role: UserRole,
    pub allowed_sources: Vec<String>,
    pub allowed_categories: Vec<String>,
    pub max_queries_per_minute: u32,
}

/// Whether some entry of the list matches `name` ignoring ASCII case.
pub open spec fn listed(list: Seq<Seq<char>>, name: Seq<char>) -> bool {
    exists|i: int| 0 <= i < list.len() && eq_ignore_ascii_case(#[trigger] list[i], name)
}

/// Whether some entry of the list is the wildcard `*`.
pub open spec fn has_wildcard(list: Seq<Seq<char>>) -> bool {
    exists|i: int| 0 <= i < list.len() && #[trigger] list[i] == "*"@
}

/// The queries-per-minute limit that a setting text gives (30 where it does not parse).
pub open spec fn qpm_for(s: Seq<char>) -> u32 {
    match unsigned_value(s) {
        Some(n) => if n <= u32::MAX {
            n as u32
        } else {
            30
        },
        None => 30,
    }
}

/// Whether some string of the vector matches `name` ignoring ASCII case.
fn any_matches(list: &Vec<String>, name: &[char]) -> (b: bool)
    ensures
        b == listed(strs(list@), name@),
{
    let mut i: usize = 0;
    while i < list.len()
        invariant
            i <= list@.len(),
            forall|k: int| 0 <= k < i ==> !eq_ignore_ascii_case(#[trigger] strs(list@)[k], name@),
        decreases list@.len() - i,
    {
        let entry = chars_of(list[i].as_str());
        if chars_eq_ignore_ascii_case(entry.as_slice(), name) {
            assert(strs(list@)[i as int] == list@[i as int]@);
            return true;
        }
        assert(strs(list@)[i as int] == list@[i as int]@);
        i = i + 1;
    }
    false
}

/// Whether some string of the vector is the wildcard `*`.
fn any_wildcard(list: &Vec<String>) -> (b: bool)
    ensures
        b == has_wildcard(strs(list@)),
{
    let star = lit("*");
    let mut i: usize = 0;
    while i < list.len()
        invariant
            i <= list@.len(),
            star@ == "*"@,
            forall|k: int| 0 <= k < i ==> #[trigger] strs(list@)[k] != "*"@,
        decreases list@.len() - i,
    {
        let entry = chars_of(list[i].as_str());
        assert(strs(list@)[i as int] == list@[i as int]@);
        if chars_eq(entry.as_slice(), star.as_slice()) {
            return true;
        }
        i = i + 1;
    }
    false
}

/// The message for a user whose role may not query.
pub open spec fn forbidden_query_message(user_id: Seq<char>, role: UserRole) -> Seq<char> {
    "Forbidden: User '"@ + user_id + "' with role '"@ + role_name(role)
        + "' does not have query permissions."@
}

impl SecurityContext {
    /// Admins reach every source; others the sources listed, ignoring ASCII case.
    pub open spec fn source_allowed(&self, source: Seq<char>) -> bool {
        self.role == UserRole::Admin || listed(strs(self.allowed_sources@), source)
    }

    /// Admins reach every category; others every category when `*` is listed,
    /// else the categories listed, ignoring ASCII case.
    pub open spec fn category_allowed(&self, category: Seq<char>) -> bool {
        self.role == UserRole::Admin || has_wildcard(strs(self.allowed_categories@)) || listed(
            strs(self.allowed_categories@),
            category,
        )
    }

    /// The context for the given settings (`USER_ROLE`, `USER_ID`, `ALLOWED_SOURCES`,
    /// `ALLOWED_CATEGORIES`, `MAX_QUERIES_PER_MINUTE`); an absent setting takes its
    /// default: "admin", "default_user", "SharePoint,Dataverse", "*", "30".
    pub fn from_env_values(
        role: Option<String>,
        user_id: Option<String>,
        sources: Option<String>,
        categories: Option<String>,
        max_queries: Option<String>,
    ) -> (r: SecurityContext)
        ensures
            r.user_id@ == setting_or(user_id, "default_user"@),
            r.role == role_for(lowercase(setting_or(role, "admin"@))),
            is_ascii_text(setting_or(role, "admin"@)) ==> r.role == role_for(
                ascii_lowercase(setting_or(role, "admin"@)),
            ),
            role is None ==> r.role == UserRole::Admin,
            strs(r.allowed_sources@) == setting_list(setting_or(sources, "SharePoint,Dataverse"@)),
            strs(r.allowed_categories@) == setting_list(setting_or(categories, "*"@)),
            r.max_queries_per_minute == qpm_for(setting_or(max_queries, "30"@)),
    {
        let role_text: String = match role {
            Some(s) => s,
            None => String::from_str("admin"),
        };
        proof {
            if role is None {
                reveal_strlit("admin");
                assert(is_ascii_text("admin"@));
                assert(ascii_lowercase("admin"@) =~= "admin"@);
            }
        }
        let user: String = match user_id {
            Some(s) => s,
            None => String::from_str("default_user"),
        };
        let source_text: String = match sources {
            Some(s) => s,
            None => String::from_str("SharePoint,Dataverse"),
        };
        let category_text: String = match categories {
            Some(s) => s,
            None => String::from_str("*"),
        };
        let qpm_text: String = match max_queries {
            Some(s) => s,
            None => String::from_str("30"),
        };
        let allowed_sources = parse_setting_list(chars_of(source_text.as_str()).as_slice());
        let allowed_categories = parse_setting_list(chars_of(category_text.as_str()).as_slice());
        let qpm: u32 = match parse_unsigned(chars_of(qpm_text.as_str()).as_slice(), 0xffff_ffff) {
            Some(n) => n as u32,
            None => 30,
        };
        SecurityContext {
            user_id: user,
            role: UserRole::from_str(role_text.as_str()),
            allowed_sources,
            allowed_categories,
            max_queries_per_minute: qpm,
        }
    }

    /// Admins reach every source; others the sources listed, ignoring ASCII case.
    pub fn can_access_source(&self, source: &str) -> (b: bool)
        ensures
            b == self.source_allowed(source@),
    {
        if self.role == UserRole::Admin {
            return true;
        }
        any_matches(&self.allowed_sources, chars_of(source).as_slice())
    }

    /// Admins reach every category; others every category when `*` is listed,
    /// else the categories listed, ignoring ASCII case.
    pub fn can_access_category(&self, category: &str) -> (b: bool)
        ensures
            b == self.category_allowed(category@),
    {
        if self.role == UserRole::Admin {
            return true;
        }
        if any_wildcard(&self.allowed_categories) {
            return true;
        }
        any_matches(&self.allowed_categories, chars_of(category).as_slice())
    }

    /// A query passes when the role may query and the prompt passes screening.
    pub fn authorize_query(&self, prompt: &str) -> (r: Result<(), String>)
        ensures
            !role_can_query(self.role) ==> outcome(r)
                == Err::<(), Seq<char>>(forbidden_query_message(self.user_id@, self.role)),
            role_can_query(self.role) ==> outcome(r)
                == prompt_verdict(prompt@),
    {
        if !self.role.can_query() {
            let mut m = lit("Forbidden: User '");
            push_all(&mut m, chars_of(self.user_id.as_str()).as_slice());
            push_all(&mut m, lit("' with role '").as_slice());
            push_all(&mut m, chars_of(self.role.name()).as_slice());
            push_all(&mut m, lit("' does not have query permissions.").as_slice());
            return Err(string_from_chars(m.as_slice()));
        }
        sanitize_prompt(prompt)
    }
}

/// What the startup check prints: the lines for standard output and the lines
/// for standard error, in order.
#[derive(Debug)]
pub struct StartupReport {
    pub out: Vec<String>,
    pub err: Vec<String>,
}

/// A list as `Debug` shows it: its entries, each quoted and escaped, between
/// brackets and separated by a comma and a space.
pub open spec fn debug_list(items: Seq<Seq<char>>) -> Seq<char> {
    "["@ + join(items.map_values(|x: Seq<char>| debug_quoted(x)), ", "@) + "]"@
}

/// The line that reports the user's access: id, role, sources and categories.
pub open spec fn rbac_line(ctx: SecurityContext) -> Seq<char> {
    "\u{1f464} RBAC: User '"@ + ctx.user_id@ + "' | Role: "@ + role_name(ctx.role)
        + " | Sources: "@ + debug_list(strs(ctx.allowed_sources@)) + " | Categories: "@
        + debug_list(strs(ctx.allowed_categories@))
}

/// The line that reports read-only mode.
pub open spec fn read_only_notice() -> Seq<char> {
    "\u{1f512} Security Posture: READ-ONLY mode enforced. Write operations are blocked."@
}

/// The warning lines of read-write mode.
pub open spec fn read_write_warning() -> Seq<Seq<char>> {
    seq![
        "\u{26a0}\u{fe0f}  Security Warning: READ-WRITE mode is active. Write operations are permitted."@,
        "   Set PERMISSIONS_MODE=ReadOnly in .env for production environments."@,
    ]
}

/// A list rendered as `Debug` shows it.
fn debug_list_text(list: &Vec<String>) -> (v: Vec<char>)
    ensures
        v@ == debug_list(strs(list@)),
{
    let ghost quoted = strs(list@).map_values(|x: Seq<char>| debug_quoted(x));
    let mut body: Vec<char> = Vec::new();
    let mut i: usize = 0;
    while i < list.len()
        invariant
            i <= list@.len(),
            quoted == strs(list@).map_values(|x: Seq<char>| debug_quoted(x)),
            body@ == join(quoted.take(i as int), ", "@),
        decreases list@.len() - i,
    {
        let ghost before = body@;
        if i > 0 {
            push_all(&mut body, lit(", ").as_slice());
        }
        push_all(&mut body, chars_of(debug_text(list[i].as_str()).as_str()).as_slice());
        proof {
            let t = quoted.take(i + 1);
            assert(t.drop_last() =~= quoted.take(i as int));
            assert(t.last() == debug_quoted(list@[i as int]@));
            if i == 0 {
                assert(t.len() == 1);
                assert(body@ =~= t[0]);
            } else {
                assert(body@ =~= before + ", "@ + t.last());
            }
        }
        i = i + 1;
    }
    assert(quoted.take(i as int) =~= quoted);
    let mut v = lit("[");
    push_all(&mut v, body.as_slice());
    push_all(&mut v, lit("]").as_slice());
    v
}

/// The startup check of the security posture: read-only mode is reported on
/// standard output; read-write mode is a warning on standard error with the
/// advice to switch back for production; then the user's access is reported
/// on standard output.
pub fn validate_startup_permissions(level: PermissionLevel, ctx: &SecurityContext) -> (r: StartupReport)
    ensures
        level == PermissionLevel::ReadOnly ==> strs(r.out@) == seq![read_only_notice(), rbac_line(*ctx)]
            && r.err@.len() == 0,
        level == PermissionLevel::ReadWrite ==> strs(r.out@) == seq![rbac_line(*ctx)] && strs(r.err@)
            == read_write_warning(),
{
    let mut out: Vec<String> = Vec::new();
    let mut err: Vec<String> = Vec::new();
    match level {
        PermissionLevel::ReadOnly => {
            out.push(
                String::from_str(
                    "\u{1f512} Security Posture: READ-ONLY mode enforced. Write operations are blocked.",
                ),
            );
        },
        PermissionLevel::ReadWrite => {
            err.push(
                String::from_str(
                    "\u{26a0}\u{fe0f}  Security Warning: READ-WRITE mode is active. Write operations are permitted.",
                ),
            );
            err.push(
                String::from_str(
                    "   Set PERMISSIONS_MODE=ReadOnly in .env for production environments.",
                ),
            );
        },
    }
    let mut line = lit("\u{1f464} RBAC: User '");
    push_all(&mut line, chars_of(ctx.user_id.as_str()).as_slice());
    push_all(&mut line, lit("' | Role: ").as_slice());
    push_all(&mut line, chars_of(ctx.role.name()).as_slice());
    push_all(&mut line, lit(" | Sources: ").as_slice());
    push_all(&mut line, debug_list_text(&ctx.allowed_sources).as_slice());
    push_all(&mut line, lit(" | Categories: ").as_slice());
    push_all(&mut line, debug_list_text(&ctx.allowed_categories).as_slice());
    out.push(string_from_chars(line.as_slice()));
    assert(strs(out@) =~= (match level {
        PermissionLevel::ReadOnly => seq![read_only_notice(), rbac_line(*ctx)],
        PermissionLevel::ReadWrite => seq![rbac_line(*ctx)],
    }));
    assert(strs(err@) =~= (match level {
        PermissionLevel::ReadOnly => Seq::<Seq<char>>::empty(),
        PermissionLevel::ReadWrite => read_write_warning(),
    }));
    StartupReport { out, err }
}

/// Admins may reach every source and every category, whatever the lists hold;
/// a listed wildcard opens every category to every role.
pub proof fn law_admin_reaches_everything(ctx: SecurityContext, name: Seq<char>)
    ensures
        ctx.role == UserRole::Admin ==> ctx.source_allowed(name) && ctx.category_allowed(name),
        has_wildcard(strs(ctx.allowed_categories@)) ==> ctx.category_allowed(name),
{
}

/// Only admins reach what the lists do not grant: for any other role a source
/// is reachable exactly when it is listed (ignoring ASCII case), and a category
/// exactly when it is listed or the wildcard is.
pub proof fn law_non_admins_reach_only_listed(ctx: SecurityContext, name: Seq<char>)
    ensures
        ctx.role != UserRole::Admin ==> (ctx.source_allowed(name) <==> exists|i: int|
            0 <= i < ctx.allowed_sources@.len() && eq_ignore_ascii_case(
                #[trigger] ctx.allowed_sources@[i]@,
                name,
            )),
        ctx.role != UserRole::Admin ==> (ctx.category_allowed(name) <==> exists|i: int|
            0 <= i < ctx.allowed_categories@.len() && (#[trigger] ctx.allowed_categories@[i]@
                == "*"@ || eq_ignore_ascii_case(ctx.allowed_categories@[i]@, name))),
        ctx.role == UserRole::Admin ==> ctx.source_allowed(name) && ctx.category_allowed(name),
{
    let srcs = strs(ctx.allowed_sources@);
    let cats = strs(ctx.allowed_categories@);
    assert forall|i: int| 0 <= i < ctx.allowed_sources@.len() implies srcs[i] == #[trigger] ctx.allowed_sources@[i]@ by {}
    assert forall|i: int| 0 <= i < ctx.allowed_categories@.len() implies cats[i] == #[trigger] ctx.allowed_categories@[i]@ by {}
    if ctx.role != UserRole::Admin {
        if listed(srcs, name) {
            let i = choose|i: int| 0 <= i < srcs.len() && eq_ignore_ascii_case(#[trigger] srcs[i], name);
            assert(eq_ignore_ascii_case(ctx.allowed_sources@[i]@, name));
        }
        if listed(cats, name) {
            let i = choose|i: int| 0 <= i < cats.len() && eq_ignore_ascii_case(#[trigger] cats[i], name);
            assert(eq_ignore_ascii_case(ctx.allowed_categories@[i]@, name));
        }
        if has_wildcard(cats) {
            let i = choose|i: int| 0 <= i < cats.len() && #[trigger] cats[i] == "*"@;
            assert(ctx.allowed_categories@[i]@ == "*"@);
        }
        if exists|i: int| 0 <= i < ctx.allowed_categories@.len() && (#[trigger] ctx.allowed_categories@[i]@
            == "*"@ || eq_ignore_ascii_case(ctx.allowed_categories@[i]@, name)) {
            let i = choose|i: int| 0 <= i < ctx.allowed_categories@.len() && (#[trigger] ctx.allowed_categories@[i]@
                == "*"@ || eq_ignore_ascii_case(ctx.allowed_categories@[i]@, name));
            assert(cats[i] == ctx.allowed_categories@[i]@);
        }
        if exists|i: int| 0 <= i < ctx.allowed_sources@.len() && eq_ignore_ascii_case(
            #[trigger] ctx.allowed_sources@[i]@,
            name,
        ) {
            let i = choose|i: int| 0 <= i < ctx.allowed_sources@.len() && eq_ignore_ascii_case(
                #[trigger] ctx.allowed_sources@[i]@,
                name,
            );
            assert(srcs[i] == ctx.allowed_sources@[i]@);
        }
    }
}

/// Access does not depend on ASCII case: two names that differ only in ASCII
/// case reach the same sources and the same categories.
pub proof fn law_access_ignores_ascii_case(ctx: SecurityContext, a: Seq<char>, b: Seq<char>)
    requires
        eq_ignore_ascii_case(a, b),
    ensures
        ctx.source_allowed(a) == ctx.source_allowed(b),
        ctx.category_allowed(a) == ctx.category_allowed(b),
{
    assert forall|list: Seq<Seq<char>>| listed(list, a) implies listed(list, b) by {
        let i = choose|i: int| 0 <= i < list.len() && eq_ignore_ascii_case(#[trigger] list[i], a);
        assert(eq_ignore_ascii_case(list[i], b));
    }
    assert forall|list: Seq<Seq<char>>| listed(list, b) implies listed(list, a) by {
        let i = choose|i: int| 0 <= i < list.len() && eq_ignore_ascii_case(#[trigger] list[i], b);
        assert(eq_ignore_ascii_case(list[i], a));
    }
}

/// A `Result<(), String>` viewed with its message as characters.
pub open spec fn outcome(r: Result<(), String>) -> Result<(), Seq<char>> {
    match r {
        Ok(()) => Ok(()),
        Err(m) => Err(m@),
    }
}

/// Phrases that mark a prompt as an injection attempt, in the order they are tested.
pub open spec fn injection_patterns() -> Seq<Seq<char>> {
    seq![
        "ignore previous instructions"@,
        "ignore all instructions"@,
        "forget your instructions"@,
        "system prompt"@,
        "you are now"@,
        "act as if"@,
        "pretend you are"@,
        "override your"@,
        "disregard all"@,
        "ignore the above"@,
    ]
}

fn injection_pattern_list() -> (r: Vec<Vec<char>>)
    ensures
        seqs_of(r@) == injection_patterns(),
{
    let mut r: Vec<Vec<char>> = Vec::new();
    r.push(lit("ignore previous instructions"));
    r.push(lit("ignore all instructions"));
    r.push(lit("forget your instructions"));
    r.push(lit("system prompt"));
    r.push(lit("you are now"));
    r.push(lit("act as if"));
    r.push(lit("pretend you are"));
    r.push(lit("override your"));
    r.push(lit("disregard all"));
    r.push(lit("ignore the above"));
    assert(seqs_of(r@) =~= injection_patterns());
    r
}

/// The first pattern of `pats` at or after index `i` that occurs in `text`.
pub open spec fn first_pattern_in(text: Seq<char>, pats: Seq<Seq<char>>, i: int) -> Option<Seq<char>>
    decreases pats.len() - i,
{
    if i < 0 || i >= pats.len() {
        None
    } else if contains(text, pats[i]) {
        Some(pats[i])
    } else {
        first_pattern_in(text, pats, i + 1)
    }
}

/// Whether the text holds markup or script that is never accepted.
pub open spec fn has_script(text: Seq<char>) -> bool {
    contains(text, "<script"@) || contains(text, "javascript:"@) || contains(text, "onerror="@)
}

/// The verdict on a prompt that is already trimmed and lowercased.
pub open spec fn lowercase_prompt_verdict(lower: Seq<char>) -> Result<(), Seq<char>> {
    match first_pattern_in(lower, injection_patterns(), 0) {
        Some(p) => Err("Blocked: Prompt contains a restricted pattern ('"@ + p + "')."@),
        None => if has_script(lower) {
            Err("Blocked: Prompt contains potentially unsafe content."@)
        } else {
            Ok(())
        },
    }
}

/// The verdict on a prompt: empty after trimming, over 5000 characters after trimming,
/// an injection phrase or script in its lowercase, or accepted.
pub open spec fn prompt_verdict(prompt: Seq<char>) -> Result<(), Seq<char>> {
    let t = trim(prompt);
    if t.len() == 0 {
        Err("Prompt cannot be empty."@)
    } else if t.len() > 5000 {
        Err("Prompt too long. Maximum 5000 characters allowed."@)
    } else {
        lowercase_prompt_verdict(lowercase(t))
    }
}

fn has_script_chars(text: &[char]) -> (b: bool)
    ensures
        b == has_script(text@),
{
    contains_chars(text, lit("<script").as_slice()) || contains_chars(
        text,
        lit("javascript:").as_slice(),
    ) || contains_chars(text, lit("onerror=").as_slice())
}

/// Screens a trimmed, lowercased prompt for injection phrases and script.
pub fn screen_lowercase_prompt(lower: &[char]) -> (r: Result<(), String>)
    ensures
        outcome(r) == lowercase_prompt_verdict(lower@),
{
    let pats = injection_pattern_list();
    let mut i: usize = 0;
    while i < pats.len()
        invariant
            i <= pats@.len(),
            seqs_of(pats@) == injection_patterns(),
            first_pattern_in(lower@, injection_patterns(), 0) == first_pattern_in(
                lower@,
                injection_patterns(),
                i as int,
            ),
        decreases pats@.len() - i,
    {
        assert(seqs_of(pats@)[i as int] == pats@[i as int]@);
        if contains_chars(lower, pats[i].as_slice()) {
            let mut m = lit("Blocked: Prompt contains a restricted pattern ('");
            push_all(&mut m, pats[i].as_slice());
            push_all(&mut m, lit("').").as_slice());
            return Err(string_from_chars(m.as_slice()));
        }
        i = i + 1;
    }
    if has_script_chars(lower) {
        return Err(String::from_str("Blocked: Prompt contains potentially unsafe content."));
    }
    Ok(())
}

/// Screens a user prompt against injection attacks.
pub fn sanitize_prompt(prompt: &str) -> (r: Result<(), String>)
    ensures
        outcome(r) == prompt_verdict(prompt@),
{
    let trimmed = trim_chars(chars_of(prompt).as_slice());
    if trimmed.len() == 0 {
        return Err(String::from_str("Prompt cannot be empty."));
    }
    if trimmed.len() > 5000 {
        return Err(String::from_str("Prompt too long. Maximum 5000 characters allowed."));
    }
    let lower = to_lowercase(trimmed.as_slice());
    screen_lowercase_prompt(lower.as_slice())
}

/// A prompt that passes screening is not blank, at most 5000 characters once trimmed,
/// and its lowercase holds none of the injection phrases and no script.
pub proof fn law_accepted_prompt_is_clean(prompt: Seq<char>)
    requires
        prompt_verdict(prompt) is Ok,
    ensures
        trim(prompt).len() > 0,
        trim(prompt).len() <= 5000,
        forall|i: int|
            0 <= i < injection_patterns().len() ==> !contains(
                lowercase(trim(prompt)),
                #[trigger] injection_patterns()[i],
            ),
        !has_script(lowercase(trim(prompt))),
{
    let lower = lowercase(trim(prompt));
    assert forall|i: int| 0 <= i < injection_patterns().len() implies !contains(
        lower,
        #[trigger] injection_patterns()[i],
    ) by {
        lemma_no_first_pattern(lower, injection_patterns(), 0, i);
    }
}

proof fn lemma_no_first_pattern(text: Seq<char>, pats: Seq<Seq<char>>, from: int, i: int)
    requires
        0 <= from <= i < pats.len(),
        first_pattern_in(text, pats, from) is None,
    ensures
        !contains(text, pats[i]),
    decreases i - from,
{
    if from < i {
        lemma_no_first_pattern(text, pats, from + 1, i);
    }
}

/// A prompt whose trimmed lowercase holds one of the ten screened phrases or a
/// script marker is refused, whatever else it holds.
pub proof fn law_screened_phrases_are_refused(prompt: Seq<char>)
    ensures
        ({
            let l = lowercase(trim(prompt));
            contains(l, "ignore previous instructions"@) || contains(l, "ignore all instructions"@)
                || contains(l, "forget your instructions"@) || contains(l, "system prompt"@)
                || contains(l, "you are now"@) || contains(l, "act as if"@) || contains(
                l,
                "pretend you are"@,
            ) || contains(l, "override your"@) || contains(l, "disregard all"@) || contains(
                l,
                "ignore the above"@,
            ) || contains(l, "<script"@) || contains(l, "javascript:"@) || contains(l, "onerror="@)
        }) ==> prompt_verdict(prompt) is Err,
{
    let t = trim(prompt);
    let l = lowercase(t);
    if t.len() != 0 && t.len() <= 5000 && first_pattern_in(l, injection_patterns(), 0) is None {
        let pats = injection_patterns();
        assert forall|i: int| 0 <= i < pats.len() implies !contains(l, #[trigger] pats[i]) by {
            lemma_no_first_pattern(l, pats, 0, i);
        }
        assert(!contains(l, pats[0]) && !contains(l, pats[1]) && !contains(l, pats[2]));
        assert(!contains(l, pats[3]) && !contains(l, pats[4]) && !contains(l, pats[5]));
        assert(!contains(l, pats[6]) && !contains(l, pats[7]) && !contains(l, pats[8]));
        assert(!contains(l, pats[9]));
    }
}

/// The message when a write operation is denied in read-only mode.
pub open spec fn deny_write_message(operation: Seq<char>) -> Seq<char> {
    "Forbidden: '"@ + operation
        + "' requires write permissions, but the server is in Read-Only mode. Contact your administrator to change PERMISSIONS_MODE."@
}

/// A consistent, user-facing error for a write operation that is denied.
pub fn deny_write_operation(operation: &str) -> (s: String)
    ensures
        s@ == deny_write_message(operation@),
{
    let mut m = lit("Forbidden: '");
    push_all(&mut m, chars_of(operation).as_slice());
    push_all(
        &mut m,
        lit(
            "' requires write permissions, but the server is in Read-Only mode. Contact your administrator to change PERMISSIONS_MODE.",
        ).as_slice(),
    );
    string_from_chars(m.as_slice())
}

} // verus!

verus! {

/// URI schemes that are refused, in the order they are tested.
pub open spec fn blocked_schemes() -> Seq<Seq<char>> {
    seq!["javascript:"@, "data:"@, "file:"@, "vbscript:"@, "blob:"@]
}

/// The scheme names as reported, without their colon.
pub open spec fn blocked_scheme_names() -> Seq<Seq<char>> {
    seq!["javascript"@, "data"@, "file"@, "vbscript"@, "blob"@]
}

/// The index of the first prefix of `pats`, at or after `i`, that `text` starts with.
pub open spec fn first_prefix_in(text: Seq<char>, pats: Seq<Seq<char>>, i: int) -> Option<int>
    decreases pats.len() - i,
{
    if i < 0 || i >= pats.len() {
        None
    } else if starts_with(text, pats[i]) {
        Some(i)
    } else {
        first_prefix_in(text, pats, i + 1)
    }
}

/// The text that follows the eight characters of "https://".
pub open spec fn after_scheme(trimmed: Seq<char>) -> Seq<char> {
    if trimmed.len() >= 8 {
        trimmed.skip(8)
    } else {
        Seq::empty()
    }
}

/// The verdict on a trimmed, non-empty URL given its lowercase.
pub open spec fn url_parts_verdict(trimmed: Seq<char>, lower: Seq<char>) -> Result<(), Seq<char>> {
    match first_prefix_in(lower, blocked_schemes(), 0) {
        Some(k) => Err("Blocked: '"@ + blocked_scheme_names()[k] + "' scheme is not allowed."@),
        None => if !starts_with(lower, "https://"@) {
            Err("Only HTTPS URLs are permitted."@)
        } else {
            let rest = after_scheme(trimmed);
            if rest.len() == 0 || rest[0] == '/' || rest[0] == '?' {
                Err("Invalid URL: missing hostname."@)
            } else if has_script(lower) {
                Err("URL contains potentially unsafe content."@)
            } else {
                Ok(())
            }
        },
    }
}

/// The verdict on a URL: empty after trimming, a refused scheme, not HTTPS,
/// no host after the scheme, script in it, or accepted.
pub open spec fn url_verdict(url: Seq<char>) -> Result<(), Seq<char>> {
    let t = trim(url);
    if t.len() == 0 {
        Err("URL cannot be empty."@)
    } else {
        url_parts_verdict(t, lowercase(t))
    }
}

fn blocked_scheme_list() -> (r: (Vec<Vec<char>>, Vec<Vec<char>>))
    ensures
        seqs_of(r.0@) == blocked_schemes(),
        seqs_of(r.1@) == blocked_scheme_names(),
{
    let mut a: Vec<Vec<char>> = Vec::new();
    a.push(lit("javascript:"));
    a.push(lit("data:"));
    a.push(lit("file:"));
    a.push(lit("vbscript:"));
    a.push(lit("blob:"));
    let mut b: Vec<Vec<char>> = Vec::new();
    b.push(lit("javascript"));
    b.push(lit("data"));
    b.push(lit("file"));
    b.push(lit("vbscript"));
    b.push(lit("blob"));
    assert(seqs_of(a@) =~= blocked_schemes());
    assert(seqs_of(b@) =~= blocked_scheme_names());
    (a, b)
}

/// Checks a trimmed, non-empty URL given its lowercase.
pub fn check_url_parts(trimmed: &[char], lower: &[char]) -> (r: Result<(), String>)
    ensures
        outcome(r) == url_parts_verdict(trimmed@, lower@),
{
    let (schemes, names) = blocked_scheme_list();
    assert(seqs_of(names@).len() == names@.len() && seqs_of(schemes@).len() == schemes@.len());
    assert(blocked_schemes().len() == 5 && blocked_scheme_names().len() == 5);
    let mut i: usize = 0;
    while i < schemes.len()
        invariant
            i <= schemes@.len(),
            names@.len() == schemes@.len(),
            seqs_of(schemes@) == blocked_schemes(),
            seqs_of(names@) == blocked_scheme_names(),
            first_prefix_in(lower@, blocked_schemes(), 0) == first_prefix_in(
                lower@,
                blocked_schemes(),
                i as int,
            ),
        decreases schemes@.len() - i,
    {
        assert(seqs_of(schemes@)[i as int] == schemes@[i as int]@);
        if starts_with_chars(lower, schemes[i].as_slice()) {
            assert(seqs_of(names@)[i as int] == names@[i as int]@);
            let mut m = lit("Blocked: '");
            push_all(&mut m, names[i].as_slice());
            push_all(&mut m, lit("' scheme is not allowed.").as_slice());
            return Err(string_from_chars(m.as_slice()));
        }
        i = i + 1;
    }
    if !starts_with_chars(lower, lit("https://").as_slice()) {
        return Err(String::from_str("Only HTTPS URLs are permitted."));
    }
    let missing = trimmed.len() <= 8 || trimmed[8] == '/' || trimmed[8] == '?';
    assert(trimmed@.len() > 8 ==> after_scheme(trimmed@)[0] == trimmed@[8]);
    if missing {
        return Err(String::from_str("Invalid URL: missing hostname."));
    }
    if has_script_chars(lower) {
        return Err(String::from_str("URL contains potentially unsafe content."));
    }
    Ok(())
}

/// Validates a URL for safe use: refuses dangerous schemes and anything but HTTPS.
pub fn validate_url(url: &str) -> (r: Result<(), String>)
    ensures
        outcome(r) == url_verdict(url@),
{
    let trimmed = trim_chars(chars_of(url).as_slice());
    if trimmed.len() == 0 {
        return Err(String::from_str("URL cannot be empty."));
    }
    let lower = to_lowercase(trimmed.as_slice());
    check_url_parts(trimmed.as_slice(), lower.as_slice())
}

/// An accepted URL is HTTPS (in its lowercase) and names something after the scheme.
pub proof fn law_accepted_url_is_https(url: Seq<char>)
    requires
        url_verdict(url) is Ok,
    ensures
        trim(url).len() > 8,
        starts_with(lowercase(trim(url)), "https://"@),
        after_scheme(trim(url))[0] != '/',
        !has_script(lowercase(trim(url))),
{
}

} // verus!
