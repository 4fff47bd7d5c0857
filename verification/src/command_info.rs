//! Short educational analogies for CLI commands.
//!
//! A command line is matched against known tools, kubectl subcommands and
//! Kubernetes resource types.

use vstd::prelude::*;

use crate::text::{ends_with_seq, ends_with_str, split_whitespace_str, split_ws, str_eq};

verus! {

/// The blurb for a kubectl subcommand.
pub open spec fn subcommand_blurb_text(sub: Seq<char>) -> Seq<char> {
    if sub == "get"@ {
        "The guest list — who's here and who's missing"@
    } else if sub == "describe"@ {
        "The full incident report, not just the headline"@
    } else if sub == "logs"@ {
        "Reading a ship's logbook after the voyage"@
    } else if sub == "exec"@ {
        "Climbing inside the machine while it's running"@
    } else if sub == "delete"@ {
        "Filing the eviction notice and walking away"@
    } else if sub == "run"@ {
        "Spinning up a food truck on an empty corner"@
    } else if sub == "apply"@ {
        "Handing the city blueprints to the building crew"@
    } else if sub == "create"@ {
        "Filing the paperwork to open a new business"@
    } else if sub == "edit"@ {
        "Rewriting a live contract while everyone watches"@
    } else if sub == "patch"@ {
        "Slapping a Post-it note over the old instruction"@
    } else if sub == "rollout"@ {
        "The stage director managing a scene in motion"@
    } else if sub == "scale"@ {
        "Calling in extra staff during the dinner rush"@
    } else if sub == "label"@ {
        "Slapping a price tag sticker on shelf inventory"@
    } else if sub == "annotate"@ {
        "Writing sticky notes on the back of a photograph"@
    } else if sub == "top"@ {
        "The electricity meter spinning on the wall"@
    } else if sub == "cordon"@ {
        "Roping off a lane — no new traffic allowed"@
    } else if sub == "uncordon"@ {
        "Removing the roadblock — lane open again"@
    } else if sub == "drain"@ {
        "Evacuating tenants before the building demo"@
    } else if sub == "taint"@ {
        "Hanging a Biohazard sign — most keep out"@
    } else if sub == "port-forward"@ {
        "A secret tunnel dug under the castle wall"@
    } else if sub == "cp"@ {
        "Dropping files through a slot in the door"@
    } else if sub == "auth"@ {
        "Checking if your badge opens the restricted wing"@
    } else if sub == "explain"@ {
        "Pulling the IKEA manual mid-build"@
    } else if sub == "config"@ {
        "Swapping the master key ring at the front desk"@
    } else if sub == "cluster-info"@ {
        "The hospital lobby board — all systems status"@
    } else if sub == "api-resources"@ {
        "The menu of every dish this kitchen can make"@
    } else if sub == "version"@ {
        "Checking the firmware sticker on the router"@
    } else {
        "A kubectl spell — check the docs for details"@
    }
}

/// Matches a kubectl subcommand against the blurb table.
pub fn subcommand_blurb(sub: &str) -> (r: &'static str)
    ensures
        r@ == subcommand_blurb_text(sub@),
{
    if str_eq(sub, "get") {
        "The guest list — who's here and who's missing"
    } else if str_eq(sub, "describe") {
        "The full incident report, not just the headline"
    } else if str_eq(sub, "logs") {
        "Reading a ship's logbook after the voyage"
    } else if str_eq(sub, "exec") {
        "Climbing inside the machine while it's running"
    } else if str_eq(sub, "delete") {
        "Filing the eviction notice and walking away"
    } else if str_eq(sub, "run") {
        "Spinning up a food truck on an empty corner"
    } else if str_eq(sub, "apply") {
        "Handing the city blueprints to the building crew"
    } else if str_eq(sub, "create") {
        "Filing the paperwork to open a new business"
    } else if str_eq(sub, "edit") {
        "Rewriting a live contract while everyone watches"
    } else if str_eq(sub, "patch") {
        "Slapping a Post-it note over the old instruction"
    } else if str_eq(sub, "rollout") {
        "The stage director managing a scene in motion"
    } else if str_eq(sub, "scale") {
        "Calling in extra staff during the dinner rush"
    } else if str_eq(sub, "label") {
        "Slapping a price tag sticker on shelf inventory"
    } else if str_eq(sub, "annotate") {
        "Writing sticky notes on the back of a photograph"
    } else if str_eq(sub, "top") {
        "The electricity meter spinning on the wall"
    } else if str_eq(sub, "cordon") {
        "Roping off a lane — no new traffic allowed"
    } else if str_eq(sub, "uncordon") {
        "Removing the roadblock — lane open again"
    } else if str_eq(sub, "drain") {
        "Evacuating tenants before the building demo"
    } else if str_eq(sub, "taint") {
        "Hanging a Biohazard sign — most keep out"
    } else if str_eq(sub, "port-forward") {
        "A secret tunnel dug under the castle wall"
    } else if str_eq(sub, "cp") {
        "Dropping files through a slot in the door"
    } else if str_eq(sub, "auth") {
        "Checking if your badge opens the restricted wing"
    } else if str_eq(sub, "explain") {
        "Pulling the IKEA manual mid-build"
    } else if str_eq(sub, "config") {
        "Swapping the master key ring at the front desk"
    } else if str_eq(sub, "cluster-info") {
        "The hospital lobby board — all systems status"
    } else if str_eq(sub, "api-resources") {
        "The menu of every dish this kitchen can make"
    } else if str_eq(sub, "version") {
        "Checking the firmware sticker on the router"
    } else {
        "A kubectl spell — check the docs for details"
    }
}

/// A resource word with a plural suffix removed: `es` first, else one `s`.
pub open spec fn normalized_resource(r: Seq<char>) -> Seq<char> {
    if ends_with_seq(r, "es"@) {
        r.take(r.len() - 2)
    } else if ends_with_seq(r, "s"@) {
        r.take(r.len() - 1)
    } else {
        r
    }
}

/// The blurb for a resource type, when the normalized word names one.
pub open spec fn resource_blurb_text(resource: Seq<char>) -> Option<Seq<char>> {
    let n = normalized_resource(resource);
    if n == "pod"@ {
        Some("Individual workers clocked in on the factory floor"@)
    } else if n == "node"@ {
        Some("Physical warehouses where all the workers live"@)
    } else if n == "namespace"@ {
        Some("Floors in the building — same address, separate spaces"@)
    } else if n == "service"@ || n == "svc"@ {
        Some("The receptionist routing visitors to the right desk"@)
    } else if n == "deployment"@ || n == "deploy"@ {
        Some("The HR contract: how many staff, which version"@)
    } else if n == "configmap"@ || n == "cm"@ {
        Some("The laminated reference card taped above the register"@)
    } else if n == "secret"@ {
        Some("The manager's safe — same room, much heavier lock"@)
    } else if n == "ingress"@ || n == "ing"@ {
        Some("The lobby directory pointing to the right floor"@)
    } else if n == "networkpolic"@ || n == "networkpolicy"@ || n == "netpol"@ {
        Some("The velvet rope deciding who may talk to whom"@)
    } else if n == "pv"@ || n == "persistentvolume"@ {
        Some("A rented storage unit that outlives any tenant"@)
    } else if n == "pvc"@ || n == "persistentvolumeclaim"@ {
        Some("The signed lease claim on that storage unit"@)
    } else if n == "serviceaccount"@ || n == "sa"@ {
        Some("A staff badge granting specific room access only"@)
    } else if n == "role"@ {
        Some("The rulebook for what one floor's staff may do"@)
    } else if n == "rolebinding"@ {
        Some("Handing that rulebook to a specific employee"@)
    } else if n == "clusterrole"@ {
        Some("A master key policy for the whole building"@)
    } else if n == "clusterrolebinding"@ {
        Some("Issuing that master key to a specific person"@)
    } else if n == "event"@ {
        Some("Security camera footage from the past hour"@)
    } else if n == "storageclass"@ || n == "sc"@ {
        Some("The catalogue of storage tiers: cheap to SSD"@)
    } else if n == "daemonset"@ || n == "ds"@ {
        Some("One guard posted at every gate in the building"@)
    } else if n == "statefulset"@ || n == "sts"@ {
        Some("Numbered lockers — each worker keeps their own"@)
    } else if n == "replicaset"@ || n == "rs"@ {
        Some("The staffing agency ensuring the right headcount"@)
    } else if n == "job"@ {
        Some("A temp worker: do the task, then clock out"@)
    } else if n == "cronjob"@ || n == "cj"@ {
        Some("The alarm clock that hires a temp on schedule"@)
    } else if n == "endpoint"@ || n == "ep"@ {
        Some("The actual phone numbers behind the switchboard"@)
    } else {
        None
    }
}

/// Matches a resource word against the blurb table, aliases and plural
/// forms included.
pub fn resource_blurb(resource: &str) -> (r: Option<&'static str>)
    ensures
        (r matches Some(b) ==> resource_blurb_text(resource@) == Some(b@)),
        r is None ==> resource_blurb_text(resource@) is None,
{
    let n = resource.unicode_len();
    let normalized: String = if ends_with_str(resource, "es") {
        proof {
            reveal_strlit("es");
        }
        resource.substring_char(0, n - 2).to_owned()
    } else if ends_with_str(resource, "s") {
        proof {
            reveal_strlit("s");
            reveal_strlit("es");
        }
        resource.substring_char(0, n - 1).to_owned()
    } else {
        proof {
            reveal_strlit("s");
            reveal_strlit("es");
        }
        resource.to_owned()
    };
    proof {
        assert(resource@.subrange(0, resource@.len() - 2) =~= resource@.take(resource@.len() - 2));
        assert(resource@.subrange(0, resource@.len() - 1) =~= resource@.take(resource@.len() - 1));
    }
    let nm = normalized.as_str();
    if str_eq(nm, "pod") {
        Some("Individual workers clocked in on the factory floor")
    } else if str_eq(nm, "node") {
        Some("Physical warehouses where all the workers live")
    } else if str_eq(nm, "namespace") {
        Some("Floors in the building — same address, separate spaces")
    } else if str_eq(nm, "service") || str_eq(nm, "svc") {
        Some("The receptionist routing visitors to the right desk")
    } else if str_eq(nm, "deployment") || str_eq(nm, "deploy") {
        Some("The HR contract: how many staff, which version")
    } else if str_eq(nm, "configmap") || str_eq(nm, "cm") {
        Some("The laminated reference card taped above the register")
    } else if str_eq(nm, "secret") {
        Some("The manager's safe — same room, much heavier lock")
    } else if str_eq(nm, "ingress") || str_eq(nm, "ing") {
        Some("The lobby directory pointing to the right floor")
    } else if str_eq(nm, "networkpolic") || str_eq(nm, "networkpolicy") || str_eq(nm, "netpol") {
        Some("The velvet rope deciding who may talk to whom")
    } else if str_eq(nm, "pv") || str_eq(nm, "persistentvolume") {
        Some("A rented storage unit that outlives any tenant")
    } else if str_eq(nm, "pvc") || str_eq(nm, "persistentvolumeclaim") {
        Some("The signed lease claim on that storage unit")
    } else if str_eq(nm, "serviceaccount") || str_eq(nm, "sa") {
        Some("A staff badge granting specific room access only")
    } else if str_eq(nm, "role") {
        Some("The rulebook for what one floor's staff may do")
    } else if str_eq(nm, "rolebinding") {
        Some("Handing that rulebook to a specific employee")
    } else if str_eq(nm, "clusterrole") {
        Some("A master key policy for the whole building")
    } else if str_eq(nm, "clusterrolebinding") {
        Some("Issuing that master key to a specific person")
    } else if str_eq(nm, "event") {
        Some("Security camera footage from the past hour")
    } else if str_eq(nm, "storageclass") || str_eq(nm, "sc") {
        Some("The catalogue of storage tiers: cheap to SSD")
    } else if str_eq(nm, "daemonset") || str_eq(nm, "ds") {
        Some("One guard posted at every gate in the building")
    } else if str_eq(nm, "statefulset") || str_eq(nm, "sts") {
        Some("Numbered lockers — each worker keeps their own")
    } else if str_eq(nm, "replicaset") || str_eq(nm, "rs") {
        Some("The staffing agency ensuring the right headcount")
    } else if str_eq(nm, "job") {
        Some("A temp worker: do the task, then clock out")
    } else if str_eq(nm, "cronjob") || str_eq(nm, "cj") {
        Some("The alarm clock that hires a temp on schedule")
    } else if str_eq(nm, "endpoint") || str_eq(nm, "ep") {
        Some("The actual phone numbers behind the switchboard")
    } else {
        None
    }
}

/// The blurb for a tool that is not a known kubectl invocation.
pub open spec fn tool_fallback_text(tool: Seq<char>) -> Seq<char> {
    if tool == "kubectl"@ {
        "Your remote control for the entire cluster"@
    } else if tool == "kind"@ {
        "A snow globe cluster you shake up on your laptop"@
    } else {
        "A tool in your Kubernetes toolkit"@
    }
}

/// Matches a bare tool name against the fallback table.
pub fn tool_fallback(tool: &str) -> (r: &'static str)
    ensures
        r@ == tool_fallback_text(tool@),
{
    if str_eq(tool, "kubectl") {
        "Your remote control for the entire cluster"
    } else if str_eq(tool, "kind") {
        "A snow globe cluster you shake up on your laptop"
    } else {
        "A tool in your Kubernetes toolkit"
    }
}

/// The analogy for a full command line.
pub open spec fn command_blurb_text(cmd: Seq<char>) -> Seq<char> {
    let parts = split_ws(cmd);
    if parts.len() == 0 {
        "A mystery command — try running it to find out"@
    } else {
        let tool = parts[0];
        if tool == "kind"@ {
            "A snow globe cluster you shake up on your laptop"@
        } else if tool == "brew"@ {
            "The vending machine for every dev tool you need"@
        } else if tool == "helm"@ {
            "Like ordering from IKEA — chart, flat-pack, assemble"@
        } else if tool == "kustomize"@ {
            "Edit the master template without touching the original"@
        } else if tool == "kubeadm"@ {
            "The hard-hat crew that pours the cluster foundation"@
        } else if tool == "etcdctl"@ {
            "Rifling through the cluster's single source of truth"@
        } else if tool == "docker"@ {
            "Shrink-wrapping your app into a shipping container"@
        } else if tool == "curl"@ {
            "Knocking on a door to see if anyone answers"@
        } else if tool != "kubectl"@ || parts.len() < 2 {
            tool_fallback_text(tool)
        } else if parts.len() >= 3 && resource_blurb_text(parts[2]) is Some {
            resource_blurb_text(parts[2]).unwrap()
        } else {
            subcommand_blurb_text(parts[1])
        }
    }
}

/// Returns a short educational analogy for a CLI command.
///
/// The command is split on whitespace and matched against known kubectl
/// subcommands, resource types, and common Kubernetes tooling.
pub fn command_blurb(cmd: &str) -> (r: &'static str)
    ensures
        r@ == command_blurb_text(cmd@),
{
    let parts = split_whitespace_str(cmd);
    if parts.len() == 0 {
        return "A mystery command — try running it to find out";
    }
    proof {
        assert(parts.deep_view()[0] == parts@[0]@);
    }
    let tool = parts[0].as_str();

    if str_eq(tool, "kind") {
        return "A snow globe cluster you shake up on your laptop";
    }
    if str_eq(tool, "brew") {
        return "The vending machine for every dev tool you need";
    }
    if str_eq(tool, "helm") {
        return "Like ordering from IKEA — chart, flat-pack, assemble";
    }
    if str_eq(tool, "kustomize") {
        return "Edit the master template without touching the original";
    }
    if str_eq(tool, "kubeadm") {
        return "The hard-hat crew that pours the cluster foundation";
    }
    if str_eq(tool, "etcdctl") {
        return "Rifling through the cluster's single source of truth";
    }
    if str_eq(tool, "docker") {
        return "Shrink-wrapping your app into a shipping container";
    }
    if str_eq(tool, "curl") {
        return "Knocking on a door to see if anyone answers";
    }

    if !str_eq(tool, "kubectl") || parts.len() < 2 {
        return tool_fallback(tool);
    }
    proof {
        assert(parts.deep_view()[1] == parts@[1]@);
    }

    if parts.len() >= 3 {
        proof {
            assert(parts.deep_view()[2] == parts@[2]@);
        }
        if let Some(blurb) = resource_blurb(parts[2].as_str()) {
            return blurb;
        }
    }

    subcommand_blurb(parts[1].as_str())
}

} // verus!
