//! Supervised polling of a fixed roster of tracked players for newly
//! completed matches.
//!
//! Each tracked player gets one poll worker.  A worker repeatedly asks the
//! remote match API for the player's latest match id, keeps the last id it
//! has seen in a shared directory, and triggers a capture-and-publish
//! pipeline exactly when a genuinely new id shows up in steady state.  The
//! whole process is lifecycle-bound to a companion process: it starts only
//! when that process is running and shuts down cooperatively once it is
//! gone.

mod api;
mod artifact;
mod config;
mod probe;
mod script;
mod shutdown;
mod storage;
mod strings;
mod supervisor;
mod types;
mod worker;

pub use api::MatchInfo;
pub use api::ParticipantRecord;
pub use api::build_match_details;
pub use api::contains_id;
pub use api::contains_str;
pub use api::friend_ids;
pub use api::has_participant;
pub use api::is_target_ix;
pub use api::latest_id_from_response;
pub use artifact::FolderScan;
pub use artifact::choose_artifact;
pub use artifact::is_mp4_name;
pub use artifact::spec_is_mp4;
pub use config::Secrets;
pub use probe::is_process_running;
pub use script::ScriptedCycle;
pub use script::lemma_exactly_one_trigger_per_novel_id;
pub use script::lemma_shutdown_convergence;
pub use script::lemma_stopped_worker_stays_stopped;
pub use script::run_script;
pub use script::spec_run;
pub use script::trigger_count;
pub use shutdown::ShutdownSignal;
pub use shutdown::lemma_set_signal_unique;
pub use storage::is_stored;
pub use storage::lemma_record_idempotent;
pub use storage::MatchStorage;
pub use supervisor::EXIT_CLEAN;
pub use supervisor::EXIT_LIVENESS_FAILED;
pub use supervisor::StartupPlan;
pub use supervisor::monitor_step;
pub use supervisor::plan_startup;
pub use types::MatchDetails;
pub use types::QueueId;
pub use types::Role;
pub use types::spec_queue_of;
pub use types::spec_queue_of_code;
pub use types::spec_role_of;
pub use worker::CycleDecision;
pub use worker::CycleInput;
pub use worker::CycleReport;
pub use worker::CycleSummary;
pub use worker::FetchOutcome;
pub use worker::PollWorker;
pub use worker::WorkerPhase;
pub use worker::lemma_bootstrap_suppression;
pub use worker::lemma_cycles_commute;
pub use worker::lemma_halt_on_shutdown;
pub use worker::lemma_novelty_detection;
pub use worker::lemma_worker_independence;
pub use worker::spec_step;
