mod cgroup_v1;
mod child;
mod cmd;
mod config;
mod fdio;
mod mount;
mod pipe;
mod proc;
mod rules;
mod run;
mod seccomp;
mod signal;
mod sys;
mod target;
mod text;
mod utils;

pub use cgroup_v1::CgResetFds;
pub use cgroup_v1::Cgroup;
pub use cgroup_v1::Metrics;
pub use cgroup_v1::cg_cleanup;
pub use cgroup_v1::cg_collect;
pub use cgroup_v1::cg_prepare_reset_metrics;
pub use cgroup_v1::cg_reset_metrics;
pub use child::ChildError;
pub use child::ChildStep;
pub use child::ExecArgs;
pub use cgroup_v1::CgroupCreateError;
pub use cgroup_v1::MetricReading;
pub use cgroup_v1::MetricsRaw;
pub use child::MountOp;
pub use child::OpenMode;
pub use child::mount_plan;
pub use child::open_flags;
pub use child::redirect_stdio;
pub use child::set_hard_rlimit;
pub use mount::bind_flags;
pub use target::target_envp;
pub use child::RedirectOp;
pub use child::RedirectSource;
pub use child::build_envp;
pub use child::prepare_execve_args;
pub use child::run_child;
pub use child::stdio_plan;
pub use cmd::Command;
pub use cmd::to_cli_args;
pub use config::BindMount;
pub use config::ConfigError;
pub use config::SandboxConfig;
pub use config::SandboxOutput;
pub use config::is_abs;
pub use config::validate;
pub use mount::bind_mount;
pub use mount::is_dir;
pub use mount::make_root_private;
pub use mount::mount_proc;
pub use mount::mount_tmpfs;
pub use mount::resolve_dst;
pub use pipe::PipeRx;
pub use pipe::PipeTx;
pub use pipe::classify_payload;
pub use pipe::create;
pub use proc::decode_wait_event;
pub use proc::wait_child;
pub use rules::c_cpp_rules;
pub use run::RunError;
pub use run::cgroup_name;
pub use run::combine_teardown;
pub use run::fresh_cgroup_name;
pub use run::make_output;
pub use run::run_parent;
pub use seccomp::Action;
pub use seccomp::CmpOp;
pub use seccomp::Comparator;
pub use seccomp::Context;
pub use seccomp::FilterEntry;
pub use seccomp::SeccompRule;
pub use seccomp::TargetRule;
pub use seccomp::filter_entries;
pub use signal::killall;
pub use signal::send_signal;
pub use sys::WaitEvent;
pub use target::Target;
pub use target::TargetLimit;
pub use target::TargetStatus;
pub use target::decode_wait_status;
pub use target::execve_gate;
pub use target::usec_of;
pub use text::collect_pids;
pub use text::i64_to_string;
pub use text::parse_u64;
pub use text::split_lines;
pub use text::u64_to_string;
pub use utils::libc_call;
