//! The proxy record, the capability interface over engine supervisors,
//! and the dispatch from a stored proxy record to a supervisor.

use vstd::prelude::*;
use vstd::string::StringExecFns;
use crate::errors::{CoreConfigError, ProxySwitchError};
use crate::strutil::str_eq;
use crate::supervisor::{init, Core, CoreAction};

verus! {

/// One stored proxy profile: identity, display name, protocol tag,
/// cumulative traffic counters, last-measured latency (`-1` when
/// unmeasured), the path of its config artifact, and a grouping label.
#[derive(Debug, Clone)]
pub struct Proxy {
    pub proxy_id: String,
    pub proxy_name: String,
    pub proxy_type: String,
    pub proxy_upload: i64,
    pub proxy_download: i64,
    pub proxy_config_path: String,
    pub proxy_delay: i32,
    pub proxy_group: String,
}

/// The lifecycle capability of an engine supervisor. The supervisor is a
/// state machine over `Idle` and `Running`; its methods decide the
/// transition and hand back the process action the caller must perform,
/// since spawning, killing and probing are the caller's outside work.
pub trait ProxyTrait {
    /// Whether a child process is considered running.
    spec fn is_running(&self) -> bool;

    /// The engine binary this supervisor drives.
    spec fn program(&self) -> Seq<char>;

    /// Moves to `Running` and yields the spawn action: the binary with a
    /// fixed `-config connection.json` argument pair.
    fn start(&mut self) -> (act: CoreAction)
        ensures
            final(self).is_running(),
            final(self).program() == old(self).program(),
            act matches CoreAction::Spawn { program, args } && program@ == old(self).program()
                && args@.len() == 2 && args@[0]@ == "-config"@ && args@[1]@ == "connection.json"@,
    ;

    /// Moves to `Idle`. On a running supervisor this yields the kill
    /// action; on an idle one it is a no-op that changes nothing.
    fn stop(&mut self) -> (act: CoreAction)
        ensures
            !final(self).is_running(),
            final(self).program() == old(self).program(),
            old(self).is_running() ==> act == CoreAction::Kill,
            !old(self).is_running() ==> act == CoreAction::Nothing,
    ;

    /// Stop followed by start: always ends `Running`, killing first only
    /// when something was running.
    fn restart(&mut self) -> (acts: (CoreAction, CoreAction))
        ensures
            final(self).is_running(),
            final(self).program() == old(self).program(),
            old(self).is_running() ==> acts.0 == CoreAction::Kill,
            !old(self).is_running() ==> acts.0 == CoreAction::Nothing,
            acts.1 matches CoreAction::Spawn { program, args } && program@ == old(self).program()
                && args@.len() == 2 && args@[0]@ == "-config"@ && args@[1]@ == "connection.json"@,
    ;

    /// The version probe: the binary with a `-version` argument. It never
    /// touches the lifecycle state.
    fn check_version(&self) -> (act: CoreAction)
        ensures
            act matches CoreAction::Probe { program, args } && program@ == self.program()
                && args@.len() == 1 && args@[0]@ == "-version"@,
    ;

    /// Whether there is a process whose accumulated output the caller
    /// should drain; an idle supervisor has none.
    fn poll_output(&self) -> (drain: bool)
        ensures
            drain == self.is_running(),
    ;
}

/// Builds the supervisor for a stored proxy record: the `v2ray` type maps
/// to an idle engine supervisor over the fixed binary path; every other
/// type is unsupported and reported in the error's message. Writing the
/// assembled document and restarting the engine are the caller's outside
/// work and follow on the returned supervisor.
pub fn use_proxy(proxy: &Proxy) -> (r: Result<Core, ProxySwitchError>)
    ensures
        r is Ok <==> proxy.proxy_type@ == "v2ray"@,
        r matches Ok(c) ==> !c.is_running() && c.program() == "/usr/bin/xray"@,
        r matches Err(e) ==> e.msg@ == "在切换代理时遇到了错误：不支持的类型："@
            + proxy.proxy_type@,
{
    if str_eq(proxy.proxy_type.as_str(), "v2ray") {
        Ok(init("/usr/bin/xray"))
    } else {
        let mut msg = String::from_str("在切换代理时遇到了错误：不支持的类型：");
        msg.append(proxy.proxy_type.as_str());
        Err(ProxySwitchError { msg })
    }
}

} // verus!
