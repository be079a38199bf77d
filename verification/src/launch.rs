//! Planning the server launch: which binary runs which script, from which
//! directory, with which database and environment, on which port.
//!
//! The shell resolves everything against the bundle's resource directory.
//! Whether a path exists on disk is established outside the crate and comes
//! in as a plain truth value; the plan computed here is exact for every
//! combination of those answers.

use vstd::prelude::*;

use crate::text::dec_digits;
use crate::text::u16_to_dec;

verus! {

/// A path extended by one component, with a single separator between them.
pub open spec fn joined_path(base: Seq<char>, component: Seq<char>) -> Seq<char> {
    base + "/"@ + component
}

/// Joins one component onto a base path.
pub fn join_path(base: &str, component: &str) -> (path: String)
    ensures
        path@ == joined_path(base@, component@),
{
    let mut path = String::from_str(base);
    path.append("/");
    path.append(component);
    proof {
        assert(path@ =~= joined_path(base@, component@));
    }
    path
}

/// The directory that holds the bundled resources: the nested `resources`
/// directory when it exists, else the resource directory itself.
pub open spec fn base_resources_spec(resource_dir: Seq<char>, nested_exists: bool) -> Seq<char> {
    if nested_exists {
        joined_path(resource_dir, "resources"@)
    } else {
        resource_dir
    }
}

/// Picks the directory that holds the bundled resources.
pub fn choose_base_resources(resource_dir: &str, nested_exists: bool) -> (base: String)
    ensures
        base@ == base_resources_spec(resource_dir@, nested_exists),
{
    if nested_exists {
        join_path(resource_dir, "resources")
    } else {
        String::from_str(resource_dir)
    }
}

/// The Node.js binary to launch: the bundled one when it exists, else the
/// Homebrew one when it exists, else whatever `node` the system resolves.
pub open spec fn node_binary_spec(
    bundled_node: Seq<char>,
    bundled_exists: bool,
    homebrew_exists: bool,
) -> Seq<char> {
    if bundled_exists {
        bundled_node
    } else if homebrew_exists {
        "/opt/homebrew/bin/node"@
    } else {
        "node"@
    }
}

/// Picks the Node.js binary to launch.
pub fn choose_node_binary(bundled_node: &str, bundled_exists: bool, homebrew_exists: bool) -> (bin:
    String)
    ensures
        bin@ == node_binary_spec(bundled_node@, bundled_exists, homebrew_exists),
{
    if bundled_exists {
        String::from_str(bundled_node)
    } else if homebrew_exists {
        String::from_str("/opt/homebrew/bin/node")
    } else {
        String::from_str("node")
    }
}

/// The bundled database is copied into place exactly when no database is
/// there yet and a bundled one exists.
pub fn should_copy_bundled_db(db_exists: bool, bundled_db_exists: bool) -> (copy: bool)
    ensures
        copy == (!db_exists && bundled_db_exists),
{
    !db_exists && bundled_db_exists
}

/// The port the server is told to use: the reserved one when reservation
/// succeeded, else the fixed fallback.
pub open spec fn chosen_port_spec(reserved: Option<u16>) -> u16 {
    match reserved {
        Some(p) => p,
        None => 3002,
    }
}

/// Picks the server's port from the outcome of the reservation.
pub fn choose_port(reserved: Option<u16>) -> (port: u16)
    ensures
        port == chosen_port_spec(reserved),
{
    match reserved {
        Some(p) => p,
        None => 3002,
    }
}

/// The environment handed to the server process.
pub fn server_env(port: u16, db_path: &str) -> (env: Vec<(String, String)>)
    ensures
        env@.len() == 4,
        env@[0].0@ == "PORT"@ && env@[0].1@ == dec_digits(port as nat),
        env@[1].0@ == "NODE_ENV"@ && env@[1].1@ == "production"@,
        env@[2].0@ == "DISABLE_LIVERELOAD"@ && env@[2].1@ == "1"@,
        env@[3].0@ == "DB_PATH"@ && env@[3].1@ == db_path@,
{
    let mut env: Vec<(String, String)> = Vec::new();
    env.push((String::from_str("PORT"), u16_to_dec(port)));
    env.push((String::from_str("NODE_ENV"), String::from_str("production")));
    env.push((String::from_str("DISABLE_LIVERELOAD"), String::from_str("1")));
    env.push((String::from_str("DB_PATH"), String::from_str(db_path)));
    env
}

/// Everything the shell needs to start the server: the working directory,
/// the script, the binary, the database path, where to copy the database
/// from when it is missing, the port, and the environment.
pub struct LaunchPlan {
    /// The application's directory inside the resources; the server's
    /// working directory.
    pub app_dir: String,
    /// The script the server runs.
    pub server_js: String,
    /// The Node.js binary that runs it.
    pub node_bin: String,
    /// Where the server's database lives.
    pub db_path: String,
    /// The bundled database to copy into place first, when one is owed.
    pub copy_db_from: Option<String>,
    /// The TCP port the server is told to listen on.
    pub port: u16,
    /// The environment handed to the server process.
    pub env: Vec<(String, String)>,
}

/// Computes the launch plan from the resolved directories, the existence
/// answers, and the outcome of the port reservation.
pub fn plan_launch(
    resource_dir: &str,
    nested_resources_exist: bool,
    bundled_node_exists: bool,
    homebrew_node_exists: bool,
    data_dir: &str,
    db_exists: bool,
    bundled_db_exists: bool,
    reserved_port: Option<u16>,
) -> (plan: LaunchPlan)
    ensures
        plan.app_dir@ == joined_path(
            base_resources_spec(resource_dir@, nested_resources_exist),
            "slowburn-app"@,
        ),
        plan.server_js@ == joined_path(plan.app_dir@, "server.js"@),
        plan.node_bin@ == node_binary_spec(
            joined_path(base_resources_spec(resource_dir@, nested_resources_exist), "node"@),
            bundled_node_exists,
            homebrew_node_exists,
        ),
        plan.db_path@ == joined_path(data_dir@, "slowburn.db"@),
        plan.copy_db_from is Some <==> (!db_exists && bundled_db_exists),
        plan.copy_db_from matches Some(from) ==> from@ == joined_path(
            base_resources_spec(resource_dir@, nested_resources_exist),
            "slowburn.db"@,
        ),
        plan.port == chosen_port_spec(reserved_port),
        plan.env@.len() == 4,
        plan.env@[0].0@ == "PORT"@ && plan.env@[0].1@ == dec_digits(plan.port as nat),
        plan.env@[1].0@ == "NODE_ENV"@ && plan.env@[1].1@ == "production"@,
        plan.env@[2].0@ == "DISABLE_LIVERELOAD"@ && plan.env@[2].1@ == "1"@,
        plan.env@[3].0@ == "DB_PATH"@ && plan.env@[3].1@ == plan.db_path@,
{
    let base_resources = choose_base_resources(resource_dir, nested_resources_exist);
    let app_dir = join_path(base_resources.as_str(), "slowburn-app");
    let server_js = join_path(app_dir.as_str(), "server.js");
    let bundled_node = join_path(base_resources.as_str(), "node");
    let node_bin = choose_node_binary(
        bundled_node.as_str(),
        bundled_node_exists,
        homebrew_node_exists,
    );
    let db_path = join_path(data_dir, "slowburn.db");
    let copy_db_from = if should_copy_bundled_db(db_exists, bundled_db_exists) {
        Some(join_path(base_resources.as_str(), "slowburn.db"))
    } else {
        None
    };
    let port = choose_port(reserved_port);
    let env = server_env(port, db_path.as_str());
    LaunchPlan { app_dir, server_js, node_bin, db_path, copy_db_from, port, env }
}

} // verus!
