//! The miniature cluster scene shown beside the step: a small data model
//! built from the step's domain and suggested commands.

use vstd::prelude::*;
use vstd::string::{StrSliceExecFns, StringExecFns};

use crate::text::{contains_seq, contains_str, lower_seq, to_lowercase_str};

verus! {

/// Health of one control-plane component or node.
#[derive(Debug, Clone, Copy, PartialEq, Eq, Structural)]
pub enum ComponentState {
    /// Working normally.
    Healthy,
    /// Working, but impaired.
    Degraded,
    /// Not working.
    Down,
}

/// The displayed phase of one pod.
#[derive(Debug, Clone, Copy, PartialEq, Eq, Structural)]
pub enum PodStatus {
    /// Scheduled and running.
    Running,
    /// Waiting to be scheduled.
    Pending,
    /// Restarting on a crash loop.
    CrashLoop,
    /// Finished successfully.
    Completed,
}

/// One pod in the scene.
#[derive(Debug, Clone)]
pub struct Pod {
    /// The pod's name.
    pub name: String,
    /// The pod's displayed phase.
    pub status: PodStatus,
}

/// One node with its pods.
#[derive(Debug, Clone)]
pub struct Node {
    /// The node's name.
    pub name: String,
    /// The pods placed on the node.
    pub pods: Vec<Pod>,
    /// The node's health.
    pub status: ComponentState,
}

/// One service in the scene.
#[derive(Debug, Clone)]
pub struct Service {
    /// The service's name.
    pub name: String,
    /// The service's port.
    pub port: u16,
}

/// A non-workload resource shown under the nodes.
#[derive(Debug, Clone)]
pub enum ExtraResource {
    /// An ingress with its host.
    Ingress {
        /// The routed host name.
        host: String,
    },
    /// A network policy.
    NetworkPolicy {
        /// The policy's name.
        name: String,
    },
    /// A persistent volume.
    PersistentVolume {
        /// The volume's name.
        name: String,
        /// The volume's capacity text.
        capacity: String,
    },
    /// A secret.
    Secret {
        /// The secret's name.
        name: String,
    },
    /// A config map.
    ConfigMap {
        /// The config map's name.
        name: String,
    },
}

/// Health of the four control-plane components.
#[derive(Debug, Clone, PartialEq, Eq, Structural)]
pub struct ControlPlane {
    /// The API server.
    pub api_server: ComponentState,
    /// The etcd store.
    pub etcd: ComponentState,
    /// The scheduler.
    pub scheduler: ComponentState,
    /// The controller manager.
    pub controller: ComponentState,
}

/// The all-healthy control plane.
pub open spec fn healthy_control_plane() -> ControlPlane {
    ControlPlane {
        api_server: ComponentState::Healthy,
        etcd: ComponentState::Healthy,
        scheduler: ComponentState::Healthy,
        controller: ComponentState::Healthy,
    }
}

impl Default for ControlPlane {
    /// All components healthy.
    fn default() -> (r: Self)
        ensures
            r == healthy_control_plane(),
    {
        ControlPlane {
            api_server: ComponentState::Healthy,
            etcd: ComponentState::Healthy,
            scheduler: ComponentState::Healthy,
            controller: ComponentState::Healthy,
        }
    }
}

/// The whole scene for one render tick.
#[derive(Debug, Clone)]
pub struct ClusterScene {
    /// The control plane's health.
    pub control_plane: ControlPlane,
    /// The nodes shown.
    pub nodes: Vec<Node>,
    /// The services shown.
    pub services: Vec<Service>,
    /// The extra resources shown.
    pub extras: Vec<ExtraResource>,
    /// The animation tick.
    pub tick: usize,
    /// The domain label the scene was built for.
    pub domain: String,
    /// How many more ticks the completion flash lasts.
    pub flash_remaining: usize,
}

/// The smaller of two values.
pub open spec fn min_int(a: int, b: int) -> int {
    if a <= b {
        a
    } else {
        b
    }
}

/// Builds pods named `names[start..end]`; the pod for `names[start + i]`
/// runs exactly when `base + i < completed`, and is pending otherwise.
fn pods_from_range(
    names: &Vec<String>,
    start: usize,
    end: usize,
    base: usize,
    completed: usize,
) -> (r: Vec<Pod>)
    requires
        start <= end <= names@.len(),
    ensures
        r@.len() == end - start,
        forall|i: int|
            0 <= i < r@.len() ==> (#[trigger] r@[i]).name@ == names.deep_view()[start + i]
                && r@[i].status == (if base + i < completed {
                PodStatus::Running
            } else {
                PodStatus::Pending
            }),
{
    let mut r: Vec<Pod> = Vec::new();
    let mut i: usize = start;
    while i < end
        invariant
            start <= i <= end <= names@.len(),
            names.deep_view().len() == names@.len(),
            forall|j: int| 0 <= j < names@.len() ==> names.deep_view()[j] == names@[j]@,
            r@.len() == i - start,
            forall|j: int|
                0 <= j < r@.len() ==> (#[trigger] r@[j]).name@ == names.deep_view()[start + j]
                    && r@[j].status == (if base + j < completed {
                    PodStatus::Running
                } else {
                    PodStatus::Pending
                }),
        decreases end - i,
    {
        let status = if completed > base && i - start < completed - base {
            PodStatus::Running
        } else {
            PodStatus::Pending
        };
        r.push(Pod { name: names[i].clone(), status });
        i += 1;
    }
    r
}

/// Builds pods named `names[0..limit]`, all with one status.
fn pods_with_status(names: &Vec<String>, limit: usize, status: PodStatus) -> (r: Vec<Pod>)
    requires
        limit <= names@.len(),
    ensures
        r@.len() == limit,
        forall|i: int|
            0 <= i < r@.len() ==> (#[trigger] r@[i]).name@ == names.deep_view()[i] && r@[i].status
                == status,
{
    let mut r: Vec<Pod> = Vec::new();
    let mut i: usize = 0;
    while i < limit
        invariant
            0 <= i <= limit <= names@.len(),
            names.deep_view().len() == names@.len(),
            forall|j: int| 0 <= j < names@.len() ==> names.deep_view()[j] == names@[j]@,
            r@.len() == i,
            forall|j: int|
                0 <= j < r@.len() ==> (#[trigger] r@[j]).name@ == names.deep_view()[j]
                    && r@[j].status == status,
        decreases limit - i,
    {
        r.push(Pod { name: names[i].clone(), status });
        i += 1;
    }
    r
}

/// The general overview scene.
pub open spec fn is_cluster_overview_scene(
    r: ClusterScene,
    names: Seq<Seq<char>>,
    completed: int,
) -> bool {
    &&& r.control_plane == healthy_control_plane()
    &&& r.domain@ == "cluster"@
    &&& r.tick == 0
    &&& r.flash_remaining == 0
    &&& r.services@.len() == 1
    &&& r.services@[0].name@ == "kubernetes"@
    &&& r.services@[0].port == 443
    &&& r.extras@.len() == 0
    &&& r.nodes@.len() == 2
    &&& r.nodes@[0].name@ == "node-1"@
    &&& r.nodes@[0].status == ComponentState::Healthy
    &&& r.nodes@[1].name@ == "node-2"@
    &&& r.nodes@[1].status == ComponentState::Healthy
    &&& r.nodes@[1].pods@.len() == 2
    &&& r.nodes@[1].pods@[0].name@ == "etcd-0"@
    &&& r.nodes@[1].pods@[0].status == PodStatus::Running
    &&& r.nodes@[1].pods@[1].name@ == "coredns"@
    &&& r.nodes@[1].pods@[1].status == PodStatus::Running
    &&& if names.len() == 0 {
        r.nodes@[0].pods@.len() == 1 && r.nodes@[0].pods@[0].name@ == "app"@
            && r.nodes@[0].pods@[0].status == PodStatus::Running
    } else {
        &&& r.nodes@[0].pods@.len() == min_int(3, names.len() as int)
        &&& forall|i: int|
            0 <= i < r.nodes@[0].pods@.len() ==> (#[trigger] r.nodes@[0].pods@[i]).name@ == names[i]
                && r.nodes@[0].pods@[i].status == (if i < min_int(completed, 3) {
                PodStatus::Running
            } else {
                PodStatus::Pending
            })
    }
}

/// The workloads scene.
pub open spec fn is_workloads_scene(r: ClusterScene, names: Seq<Seq<char>>, completed: int) -> bool {
    let half = min_int(names.len() as int, 4) / 2;
    let cut = min_int(if half >= 1 {
        half
    } else {
        1
    }, names.len() as int);
    &&& r.control_plane == healthy_control_plane()
    &&& r.domain@ == "workloads"@
    &&& r.tick == 0
    &&& r.flash_remaining == 0
    &&& r.services@.len() == 1
    &&& r.services@[0].name@ == "web-svc"@
    &&& r.services@[0].port == 80
    &&& r.extras@.len() == 0
    &&& r.nodes@.len() == 2
    &&& r.nodes@[0].name@ == "node-1"@
    &&& r.nodes@[0].status == ComponentState::Healthy
    &&& r.nodes@[1].name@ == "node-2"@
    &&& r.nodes@[1].status == ComponentState::Healthy
    &&& if cut == 0 {
        &&& r.nodes@[0].pods@.len() == 2
        &&& r.nodes@[0].pods@[0].name@ == "web-0"@
        &&& r.nodes@[0].pods@[0].status == PodStatus::Running
        &&& r.nodes@[0].pods@[1].name@ == "web-1"@
        &&& r.nodes@[0].pods@[1].status == PodStatus::Pending
    } else {
        &&& r.nodes@[0].pods@.len() == cut
        &&& forall|i: int|
            0 <= i < cut ==> (#[trigger] r.nodes@[0].pods@[i]).name@ == names[i]
                && r.nodes@[0].pods@[i].status == (if i < completed {
                PodStatus::Running
            } else {
                PodStatus::Pending
            })
    }
    &&& if cut == names.len() {
        &&& r.nodes@[1].pods@.len() == 1
        &&& r.nodes@[1].pods@[0].name@ == "worker-0"@
        &&& r.nodes@[1].pods@[0].status == PodStatus::Running
    } else {
        &&& r.nodes@[1].pods@.len() == names.len() - cut
        &&& forall|i: int|
            0 <= i < names.len() - cut ==> (#[trigger] r.nodes@[1].pods@[i]).name@ == names[cut + i]
                && r.nodes@[1].pods@[i].status == (if half + i < completed {
                PodStatus::Running
            } else {
                PodStatus::Pending
            })
    }
}

/// The networking scene.
pub open spec fn is_networking_scene(r: ClusterScene, names: Seq<Seq<char>>, completed: int) -> bool {
    &&& r.control_plane == healthy_control_plane()
    &&& r.domain@ == "networking"@
    &&& r.tick == 0
    &&& r.flash_remaining == 0
    &&& r.services@.len() == 1
    &&& r.services@[0].name@ == "nginx-svc"@
    &&& r.services@[0].port == 80
    &&& r.extras@.len() == 1
    &&& (r.extras@[0] matches ExtraResource::Ingress { host } && host@ == "app.k8s.io"@)
    &&& r.nodes@.len() == 2
    &&& r.nodes@[0].name@ == "node-1"@
    &&& r.nodes@[0].status == ComponentState::Healthy
    &&& r.nodes@[1].name@ == "node-2"@
    &&& r.nodes@[1].status == ComponentState::Healthy
    &&& r.nodes@[1].pods@.len() == 2
    &&& r.nodes@[1].pods@[0].name@ == "api"@
    &&& r.nodes@[1].pods@[0].status == PodStatus::Running
    &&& r.nodes@[1].pods@[1].name@ == "worker"@
    &&& r.nodes@[1].pods@[1].status == PodStatus::Pending
    &&& if names.len() == 0 {
        &&& r.nodes@[0].pods@.len() == 2
        &&& r.nodes@[0].pods@[0].name@ == "nginx"@
        &&& r.nodes@[0].pods@[0].status == PodStatus::Running
        &&& r.nodes@[0].pods@[1].name@ == "redis"@
        &&& r.nodes@[0].pods@[1].status == PodStatus::Running
    } else {
        &&& r.nodes@[0].pods@.len() == min_int(2, names.len() as int)
        &&& forall|i: int|
            0 <= i < r.nodes@[0].pods@.len() ==> (#[trigger] r.nodes@[0].pods@[i]).name@ == names[i]
                && r.nodes@[0].pods@[i].status == (if i < completed {
                PodStatus::Running
            } else {
                PodStatus::Pending
            })
    }
}

/// The storage scene.
pub open spec fn is_storage_scene(r: ClusterScene, names: Seq<Seq<char>>, completed: int) -> bool {
    &&& r.control_plane == healthy_control_plane()
    &&& r.domain@ == "storage"@
    &&& r.tick == 0
    &&& r.flash_remaining == 0
    &&& r.services@.len() == 0
    &&& r.extras@.len() == 2
    &&& (r.extras@[0] matches ExtraResource::PersistentVolume { name, capacity } && name@
        == "data-vol"@ && capacity@ == "10Gi"@)
    &&& (r.extras@[1] matches ExtraResource::PersistentVolume { name, capacity } && name@
        == "log-vol"@ && capacity@ == "5Gi"@)
    &&& r.nodes@.len() == 1
    &&& r.nodes@[0].name@ == "node-1"@
    &&& r.nodes@[0].status == ComponentState::Healthy
    &&& if names.len() == 0 {
        r.nodes@[0].pods@.len() == 1 && r.nodes@[0].pods@[0].name@ == "db-0"@
            && r.nodes@[0].pods@[0].status == PodStatus::Running
    } else {
        &&& r.nodes@[0].pods@.len() == min_int(2, names.len() as int)
        &&& forall|i: int|
            0 <= i < r.nodes@[0].pods@.len() ==> (#[trigger] r.nodes@[0].pods@[i]).name@ == names[i]
                && r.nodes@[0].pods@[i].status == (if i < completed {
                PodStatus::Running
            } else {
                PodStatus::Pending
            })
    }
}

/// The security scene.
pub open spec fn is_security_scene(r: ClusterScene, names: Seq<Seq<char>>) -> bool {
    &&& r.control_plane == healthy_control_plane()
    &&& r.domain@ == "security"@
    &&& r.tick == 0
    &&& r.flash_remaining == 0
    &&& r.services@.len() == 0
    &&& r.extras@.len() == 2
    &&& (r.extras@[0] matches ExtraResource::Secret { name } && name@ == "tls-cert"@)
    &&& (r.extras@[1] matches ExtraResource::NetworkPolicy { name } && name@ == "deny-all"@)
    &&& r.nodes@.len() == 1
    &&& r.nodes@[0].name@ == "node-1"@
    &&& r.nodes@[0].status == ComponentState::Healthy
    &&& if names.len() == 0 {
        r.nodes@[0].pods@.len() == 1 && r.nodes@[0].pods@[0].name@ == "app"@
            && r.nodes@[0].pods@[0].status == PodStatus::Running
    } else {
        &&& r.nodes@[0].pods@.len() == min_int(2, names.len() as int)
        &&& forall|i: int|
            0 <= i < r.nodes@[0].pods@.len() ==> (#[trigger] r.nodes@[0].pods@[i]).name@ == names[i]
                && r.nodes@[0].pods@[i].status == PodStatus::Running
    }
}

/// The troubleshooting scene.
pub open spec fn is_troubleshooting_scene(r: ClusterScene, names: Seq<Seq<char>>) -> bool {
    &&& r.control_plane == (ControlPlane {
        api_server: ComponentState::Healthy,
        etcd: ComponentState::Degraded,
        scheduler: ComponentState::Healthy,
        controller: ComponentState::Degraded,
    })
    &&& r.domain@ == "troubleshooting"@
    &&& r.tick == 0
    &&& r.flash_remaining == 0
    &&& r.services@.len() == 0
    &&& r.extras@.len() == 0
    &&& r.nodes@.len() == 2
    &&& r.nodes@[0].name@ == "node-1"@
    &&& r.nodes@[0].status == ComponentState::Degraded
    &&& r.nodes@[1].name@ == "node-2"@
    &&& r.nodes@[1].status == ComponentState::Healthy
    &&& r.nodes@[1].pods@.len() == 1
    &&& r.nodes@[1].pods@[0].name@ == "ok-pod"@
    &&& r.nodes@[1].pods@[0].status == PodStatus::Running
    &&& if names.len() == 0 {
        &&& r.nodes@[0].pods@.len() == 2
        &&& r.nodes@[0].pods@[0].name@ == "crash-1"@
        &&& r.nodes@[0].pods@[0].status == PodStatus::CrashLoop
        &&& r.nodes@[0].pods@[1].name@ == "pending"@
        &&& r.nodes@[0].pods@[1].status == PodStatus::Pending
    } else {
        &&& r.nodes@[0].pods@.len() == min_int(2, names.len() as int)
        &&& forall|i: int|
            0 <= i < r.nodes@[0].pods@.len() ==> (#[trigger] r.nodes@[0].pods@[i]).name@ == names[i]
                && r.nodes@[0].pods@[i].status == PodStatus::CrashLoop
    }
}

impl ClusterScene {
    /// The scene for a step: the domain text picks the template, the
    /// suggested commands supply pod names, and the completed count decides
    /// which pods already run.
    pub fn for_domain(domain: &str, commands: &Vec<String>, completed_count: usize) -> (r: Self)
        ensures
            ({
                let lower = lower_seq(domain@);
                let names = extract_pod_names_spec(commands.deep_view());
                &&& contains_seq(lower, "network"@) ==> is_networking_scene(
                    r,
                    names,
                    completed_count as int,
                )
                &&& !contains_seq(lower, "network"@) && (contains_seq(lower, "workload"@)
                    || contains_seq(lower, "scheduling"@)) ==> is_workloads_scene(
                    r,
                    names,
                    completed_count as int,
                )
                &&& !contains_seq(lower, "network"@) && !contains_seq(lower, "workload"@)
                    && !contains_seq(lower, "scheduling"@) && contains_seq(lower, "storage"@)
                    ==> is_storage_scene(r, names, completed_count as int)
                &&& !contains_seq(lower, "network"@) && !contains_seq(lower, "workload"@)
                    && !contains_seq(lower, "scheduling"@) && !contains_seq(lower, "storage"@) && (
                contains_seq(lower, "security"@) || contains_seq(lower, "rbac"@))
                    ==> is_security_scene(r, names)
                &&& !contains_seq(lower, "network"@) && !contains_seq(lower, "workload"@)
                    && !contains_seq(lower, "scheduling"@) && !contains_seq(lower, "storage"@)
                    && !contains_seq(lower, "security"@) && !contains_seq(lower, "rbac"@)
                    && contains_seq(lower, "troubleshoot"@) ==> is_troubleshooting_scene(r, names)
                &&& !contains_seq(lower, "network"@) && !contains_seq(lower, "workload"@)
                    && !contains_seq(lower, "scheduling"@) && !contains_seq(lower, "storage"@)
                    && !contains_seq(lower, "security"@) && !contains_seq(lower, "rbac"@)
                    && !contains_seq(lower, "troubleshoot"@) ==> is_cluster_overview_scene(
                    r,
                    names,
                    completed_count as int,
                )
            }),
    {
        let lowered = to_lowercase_str(domain);
        let lower = lowered.as_str();
        let pod_names = extract_pod_names(commands);

        if contains_str(lower, "network") {
            Self::networking_scene(&pod_names, completed_count)
        } else if contains_str(lower, "workload") || contains_str(lower, "scheduling") {
            Self::workloads_scene(&pod_names, completed_count)
        } else if contains_str(lower, "storage") {
            Self::storage_scene(&pod_names, completed_count)
        } else if contains_str(lower, "security") || contains_str(lower, "rbac") {
            Self::security_scene(&pod_names, completed_count)
        } else if contains_str(lower, "troubleshoot") {
            Self::troubleshooting_scene(&pod_names)
        } else {
            Self::cluster_overview_scene(&pod_names, completed_count)
        }
    }

    fn cluster_overview_scene(pod_names: &Vec<String>, completed: usize) -> (r: Self)
        ensures
            is_cluster_overview_scene(r, pod_names.deep_view(), completed as int),
    {
        let cap = if completed <= 3 {
            completed
        } else {
            3
        };
        let limit = if pod_names.len() <= 3 {
            pod_names.len()
        } else {
            3
        };
        let pods1 = if pod_names.len() == 0 {
            let mut v: Vec<Pod> = Vec::new();
            v.push(Pod { name: "app".to_owned(), status: PodStatus::Running });
            v
        } else {
            pods_from_range(pod_names, 0, limit, 0, cap)
        };
        let mut pods2: Vec<Pod> = Vec::new();
        pods2.push(Pod { name: "etcd-0".to_owned(), status: PodStatus::Running });
        pods2.push(Pod { name: "coredns".to_owned(), status: PodStatus::Running });

        let mut nodes: Vec<Node> = Vec::new();
        nodes.push(Node { name: "node-1".to_owned(), pods: pods1, status: ComponentState::Healthy });
        nodes.push(Node { name: "node-2".to_owned(), pods: pods2, status: ComponentState::Healthy });

        let mut services: Vec<Service> = Vec::new();
        services.push(Service { name: "kubernetes".to_owned(), port: 443 });

        ClusterScene {
            control_plane: ControlPlane::default(),
            nodes,
            services,
            extras: Vec::new(),
            tick: 0,
            domain: "cluster".to_owned(),
            flash_remaining: 0,
        }
    }

    fn workloads_scene(pod_names: &Vec<String>, completed: usize) -> (r: Self)
        ensures
            is_workloads_scene(r, pod_names.deep_view(), completed as int),
    {
        let n = pod_names.len();
        let capped = if n <= 4 {
            n
        } else {
            4
        };
        let half = capped / 2;
        let at_least_one = if half >= 1 {
            half
        } else {
            1
        };
        let cut = if at_least_one <= n {
            at_least_one
        } else {
            n
        };

        let pods1 = if cut == 0 {
            let mut v: Vec<Pod> = Vec::new();
            v.push(Pod { name: "web-0".to_owned(), status: PodStatus::Running });
            v.push(Pod { name: "web-1".to_owned(), status: PodStatus::Pending });
            v
        } else {
            pods_from_range(pod_names, 0, cut, 0, completed)
        };
        let pods2 = if cut == n {
            let mut v: Vec<Pod> = Vec::new();
            v.push(Pod { name: "worker-0".to_owned(), status: PodStatus::Running });
            v
        } else {
            pods_from_range(pod_names, cut, n, half, completed)
        };

        let mut nodes: Vec<Node> = Vec::new();
        nodes.push(Node { name: "node-1".to_owned(), pods: pods1, status: ComponentState::Healthy });
        nodes.push(Node { name: "node-2".to_owned(), pods: pods2, status: ComponentState::Healthy });

        let mut services: Vec<Service> = Vec::new();
        services.push(Service { name: "web-svc".to_owned(), port: 80 });

        ClusterScene {
            control_plane: ControlPlane::default(),
            nodes,
            services,
            extras: Vec::new(),
            tick: 0,
            domain: "workloads".to_owned(),
            flash_remaining: 0,
        }
    }

    fn networking_scene(pod_names: &Vec<String>, completed: usize) -> (r: Self)
        ensures
            is_networking_scene(r, pod_names.deep_view(), completed as int),
    {
        let limit = if pod_names.len() <= 2 {
            pod_names.len()
        } else {
            2
        };
        let pods1 = if pod_names.len() == 0 {
            let mut v: Vec<Pod> = Vec::new();
            v.push(Pod { name: "nginx".to_owned(), status: PodStatus::Running });
            v.push(Pod { name: "redis".to_owned(), status: PodStatus::Running });
            v
        } else {
            pods_from_range(pod_names, 0, limit, 0, completed)
        };
        let mut pods2: Vec<Pod> = Vec::new();
        pods2.push(Pod { name: "api".to_owned(), status: PodStatus::Running });
        pods2.push(Pod { name: "worker".to_owned(), status: PodStatus::Pending });

        let mut nodes: Vec<Node> = Vec::new();
        nodes.push(Node { name: "node-1".to_owned(), pods: pods1, status: ComponentState::Healthy });
        nodes.push(Node { name: "node-2".to_owned(), pods: pods2, status: ComponentState::Healthy });

        let mut services: Vec<Service> = Vec::new();
        services.push(Service { name: "nginx-svc".to_owned(), port: 80 });

        let mut extras: Vec<ExtraResource> = Vec::new();
        extras.push(ExtraResource::Ingress { host: "app.k8s.io".to_owned() });

        ClusterScene {
            control_plane: ControlPlane::default(),
            nodes,
            services,
            extras,
            tick: 0,
            domain: "networking".to_owned(),
            flash_remaining: 0,
        }
    }

    fn storage_scene(pod_names: &Vec<String>, completed: usize) -> (r: Self)
        ensures
            is_storage_scene(r, pod_names.deep_view(), completed as int),
    {
        let limit = if pod_names.len() <= 2 {
            pod_names.len()
        } else {
            2
        };
        let pods = if pod_names.len() == 0 {
            let mut v: Vec<Pod> = Vec::new();
            v.push(Pod { name: "db-0".to_owned(), status: PodStatus::Running });
            v
        } else {
            pods_from_range(pod_names, 0, limit, 0, completed)
        };

        let mut nodes: Vec<Node> = Vec::new();
        nodes.push(Node { name: "node-1".to_owned(), pods, status: ComponentState::Healthy });

        let mut extras: Vec<ExtraResource> = Vec::new();
        extras.push(
            ExtraResource::PersistentVolume {
                name: "data-vol".to_owned(),
                capacity: "10Gi".to_owned(),
            },
        );
        extras.push(
            ExtraResource::PersistentVolume {
                name: "log-vol".to_owned(),
                capacity: "5Gi".to_owned(),
            },
        );

        ClusterScene {
            control_plane: ControlPlane::default(),
            nodes,
            services: Vec::new(),
            extras,
            tick: 0,
            domain: "storage".to_owned(),
            flash_remaining: 0,
        }
    }

    fn security_scene(pod_names: &Vec<String>, _completed: usize) -> (r: Self)
        ensures
            is_security_scene(r, pod_names.deep_view()),
    {
        let limit = if pod_names.len() <= 2 {
            pod_names.len()
        } else {
            2
        };
        let pods = if pod_names.len() == 0 {
            let mut v: Vec<Pod> = Vec::new();
            v.push(Pod { name: "app".to_owned(), status: PodStatus::Running });
            v
        } else {
            pods_with_status(pod_names, limit, PodStatus::Running)
        };

        let mut nodes: Vec<Node> = Vec::new();
        nodes.push(Node { name: "node-1".to_owned(), pods, status: ComponentState::Healthy });

        let mut extras: Vec<ExtraResource> = Vec::new();
        extras.push(ExtraResource::Secret { name: "tls-cert".to_owned() });
        extras.push(ExtraResource::NetworkPolicy { name: "deny-all".to_owned() });

        ClusterScene {
            control_plane: ControlPlane::default(),
            nodes,
            services: Vec::new(),
            extras,
            tick: 0,
            domain: "security".to_owned(),
            flash_remaining: 0,
        }
    }

    fn troubleshooting_scene(pod_names: &Vec<String>) -> (r: Self)
        ensures
            is_troubleshooting_scene(r, pod_names.deep_view()),
    {
        let limit = if pod_names.len() <= 2 {
            pod_names.len()
        } else {
            2
        };
        let pods1 = if pod_names.len() == 0 {
            let mut v: Vec<Pod> = Vec::new();
            v.push(Pod { name: "crash-1".to_owned(), status: PodStatus::CrashLoop });
            v.push(Pod { name: "pending".to_owned(), status: PodStatus::Pending });
            v
        } else {
            pods_with_status(pod_names, limit, PodStatus::CrashLoop)
        };
        let mut pods2: Vec<Pod> = Vec::new();
        pods2.push(Pod { name: "ok-pod".to_owned(), status: PodStatus::Running });

        let mut nodes: Vec<Node> = Vec::new();
        nodes.push(Node { name: "node-1".to_owned(), pods: pods1, status: ComponentState::Degraded });
        nodes.push(Node { name: "node-2".to_owned(), pods: pods2, status: ComponentState::Healthy });

        ClusterScene {
            control_plane: ControlPlane {
                api_server: ComponentState::Healthy,
                etcd: ComponentState::Degraded,
                scheduler: ComponentState::Healthy,
                controller: ComponentState::Degraded,
            },
            nodes,
            services: Vec::new(),
            extras: Vec::new(),
            tick: 0,
            domain: "troubleshooting".to_owned(),
            flash_remaining: 0,
        }
    }

    /// Advances the animation tick and runs the flash down.
    pub fn tick(&mut self)
        ensures
            final(self).tick == (if old(self).tick == usize::MAX {
                0int
            } else {
                old(self).tick + 1
            }),
            final(self).flash_remaining == (if old(self).flash_remaining > 0 {
                old(self).flash_remaining - 1
            } else {
                0int
            }),
            final(self).control_plane == old(self).control_plane,
            final(self).nodes == old(self).nodes,
            final(self).services == old(self).services,
            final(self).extras == old(self).extras,
            final(self).domain == old(self).domain,
    {
        if self.tick == usize::MAX {
            self.tick = 0;
        } else {
            self.tick = self.tick + 1;
        }
        if self.flash_remaining > 0 {
            self.flash_remaining = self.flash_remaining - 1;
        }
    }

    /// Starts the completion flash.
    pub fn trigger_flash(&mut self)
        ensures
            final(self).flash_remaining == 20,
            final(self).tick == old(self).tick,
            final(self).control_plane == old(self).control_plane,
            final(self).nodes == old(self).nodes,
            final(self).services == old(self).services,
            final(self).extras == old(self).extras,
            final(self).domain == old(self).domain,
    {
        self.flash_remaining = 20;
    }
}

/// The well-known workload names looked for in suggested commands.
pub open spec fn keyword_names() -> Seq<Seq<char>> {
    seq![
        "nginx"@,
        "redis"@,
        "mysql"@,
        "postgres"@,
        "app"@,
        "web"@,
        "api"@,
        "worker"@,
        "cache"@,
        "proxy"@,
        "db"@,
        "backend"@,
        "frontend"@,
    ]
}

/// One command's pass over the keyword table, keywords `k` onward.
pub open spec fn scan_keywords(found: Seq<Seq<char>>, cmd: Seq<char>, k: int) -> Seq<Seq<char>>
    decreases keyword_names().len() - k,
{
    if k < 0 || k >= keyword_names().len() {
        found
    } else {
        let kw = keyword_names()[k];
        let found2 = if contains_seq(lower_seq(cmd), kw) && !found.contains(kw) {
            found.push(kw)
        } else {
            found
        };
        scan_keywords(found2, cmd, k + 1)
    }
}

/// All commands' passes over the keyword table, commands `i` onward.
pub open spec fn scan_commands(found: Seq<Seq<char>>, commands: Seq<Seq<char>>, i: int) -> Seq<
    Seq<char>,
>
    decreases commands.len() - i,
{
    if i < 0 || i >= commands.len() {
        found
    } else {
        scan_commands(scan_keywords(found, commands[i], 0), commands, i + 1)
    }
}

/// The pod names for a command list: each keyword occurring in some
/// lower-cased command, once, in keyword-discovery order; `app` when none
/// occurs; at most four.
pub open spec fn extract_pod_names_spec(commands: Seq<Seq<char>>) -> Seq<Seq<char>> {
    let found = scan_commands(Seq::empty(), commands, 0);
    let ensured = if found.len() == 0 {
        seq!["app"@]
    } else {
        found
    };
    ensured.take(min_int(4, ensured.len() as int))
}

/// Whether some element of `v` views as `t`.
fn vec_contains_text(v: &Vec<String>, t: &str) -> (r: bool)
    ensures
        r == v.deep_view().contains(t@),
{
    let n = v.len();
    let mut i: usize = 0;
    while i < n
        invariant
            0 <= i <= n,
            n == v@.len(),
            v.deep_view().len() == v@.len(),
            forall|j: int| 0 <= j < v@.len() ==> v.deep_view()[j] == v@[j]@,
            forall|j: int| 0 <= j < i ==> v.deep_view()[j] != t@,
        decreases n - i,
    {
        if crate::text::str_eq(v[i].as_str(), t) {
            proof {
                assert(v.deep_view().contains(t@)) by {
                    assert(v.deep_view()[i as int] == t@);
                }
            }
            return true;
        }
        i += 1;
    }
    false
}

/// Collects pod names for the scene from the suggested commands.
pub fn extract_pod_names(commands: &Vec<String>) -> (r: Vec<String>)
    ensures
        r.deep_view() == extract_pod_names_spec(commands.deep_view()),
{
    let keywords = keyword_list();
    let mut found: Vec<String> = Vec::new();
    proof {
        assert(found.deep_view() =~= Seq::<Seq<char>>::empty());
    }
    let n = commands.len();
    let mut i: usize = 0;
    while i < n
        invariant
            0 <= i <= n,
            n == commands@.len(),
            commands.deep_view().len() == commands@.len(),
            forall|j: int| 0 <= j < commands@.len() ==> commands.deep_view()[j] == commands@[j]@,
            keywords@.len() == keyword_names().len(),
            forall|j: int| 0 <= j < keywords@.len() ==> keywords@[j]@ == keyword_names()[j],
            scan_commands(Seq::empty(), commands.deep_view(), 0) == scan_commands(
                found.deep_view(),
                commands.deep_view(),
                i as int,
            ),
        decreases n - i,
    {
        let lower = to_lowercase_str(commands[i].as_str());
        let ghost f0 = found.deep_view();
        let m = keywords.len();
        let mut k: usize = 0;
        while k < m
            invariant
                0 <= k <= m,
                i < n,
                n == commands@.len(),
                commands.deep_view().len() == commands@.len(),
                forall|j: int| 0 <= j < commands@.len() ==> commands.deep_view()[j] == commands@[j]@,
                m == keywords@.len(),
                keywords@.len() == keyword_names().len(),
                forall|j: int| 0 <= j < keywords@.len() ==> keywords@[j]@ == keyword_names()[j],
                lower@ == lower_seq(commands.deep_view()[i as int]),
                scan_commands(Seq::empty(), commands.deep_view(), 0) == scan_commands(
                    f0,
                    commands.deep_view(),
                    i as int,
                ),
                scan_keywords(f0, commands.deep_view()[i as int], 0) == scan_keywords(
                    found.deep_view(),
                    commands.deep_view()[i as int],
                    k as int,
                ),
            decreases m - k,
        {
            let kw = keywords[k];
            if contains_str(lower.as_str(), kw) && !vec_contains_text(&found, kw) {
                let ghost pre = found;
                let owned = kw.to_owned();
                let ghost owned_snap = owned;
                found.push(owned);
                proof {
                    crate::text::lemma_deep_view_push(pre, found, owned_snap);
                }
            }
            k += 1;
        }
        i += 1;
    }
    if found.len() == 0 {
        let ghost pre = found;
        let fallback = "app".to_owned();
        let ghost fallback_snap = fallback;
        found.push(fallback);
        proof {
            crate::text::lemma_deep_view_push(pre, found, fallback_snap);
            assert(Seq::<Seq<char>>::empty().push("app"@) =~= seq!["app"@]);
        }
    }
    let ghost before_truncate = found.deep_view();
    if found.len() > 4 {
        found.truncate(4);
        proof {
            assert(found.deep_view() =~= before_truncate.take(4));
        }
    }
    proof {
        assert(found.deep_view() =~= before_truncate.take(
            min_int(4, before_truncate.len() as int),
        ));
    }
    found
}

/// The keyword table as runtime values.
fn keyword_list() -> (r: Vec<&'static str>)
    ensures
        r@.len() == keyword_names().len(),
        forall|i: int| 0 <= i < r@.len() ==> r@[i]@ == keyword_names()[i],
{
    let mut v: Vec<&'static str> = Vec::new();
    v.push("nginx");
    v.push("redis");
    v.push("mysql");
    v.push("postgres");
    v.push("app");
    v.push("web");
    v.push("api");
    v.push("worker");
    v.push("cache");
    v.push("proxy");
    v.push("db");
    v.push("backend");
    v.push("frontend");
    v
}

/// The pulse glyph for a component's state at a tick.
pub fn component_icon(state: ComponentState, tick: usize) -> (r: &'static str)
    ensures
        state == ComponentState::Healthy && tick % 20 < 10 ==> r@ == "◉"@,
        state == ComponentState::Healthy && tick % 20 >= 10 ==> r@ == "●"@,
        state == ComponentState::Degraded ==> r@ == "◎"@,
        state == ComponentState::Down ==> r@ == "○"@,
{
    match state {
        ComponentState::Healthy => {
            if tick % 20 < 10 {
                "◉"
            } else {
                "●"
            }
        },
        ComponentState::Degraded => "◎",
        ComponentState::Down => "○",
    }
}

/// The glyph for a pod's status at a tick; pending pods spin, crash-looping
/// pods blink.
pub fn pod_icon(status: PodStatus, tick: usize) -> (r: &'static str)
    ensures
        status == PodStatus::Running ==> r@ == "☸"@,
        status == PodStatus::Pending ==> ({
            let phase = (tick / 5) % 4;
            &&& phase == 0 ==> r@ == "◌"@
            &&& phase == 1 ==> r@ == "◔"@
            &&& phase == 2 ==> r@ == "◑"@
            &&& phase == 3 ==> r@ == "◕"@
        }),
        status == PodStatus::CrashLoop && tick % 10 < 5 ==> r@ == "✖"@,
        status == PodStatus::CrashLoop && tick % 10 >= 5 ==> r@ == " "@,
        status == PodStatus::Completed ==> r@ == "✓"@,
{
    match status {
        PodStatus::Running => "☸",
        PodStatus::Pending => {
            let phase = (tick / 5) % 4;
            if phase == 0 {
                "◌"
            } else if phase == 1 {
                "◔"
            } else if phase == 2 {
                "◑"
            } else {
                "◕"
            }
        },
        PodStatus::CrashLoop => {
            if tick % 10 < 5 {
                "✖"
            } else {
                " "
            }
        },
        PodStatus::Completed => "✓",
    }
}

} // verus!
