use raft_core::log_entry::{ConfigurationChange, EntryType, LogEntry};
use raft_core::raft_messages::RaftMsg;
use raft_core::wire::{WireConfigurationChange, WireEntryType, WireLogEntry, WireRaftMsg};

fn all_messages() -> Vec<RaftMsg<String>> {
    vec![
        RaftMsg::RequestVote { term: 3, candidate_id: 2, last_log_index: 9, last_log_term: 2 },
        RaftMsg::RequestVoteResponse { term: 3, vote_granted: true },
        RaftMsg::PreVoteRequest { term: 4, candidate_id: 5, last_log_index: 1, last_log_term: 1 },
        RaftMsg::PreVoteResponse { term: 4, vote_granted: false },
        RaftMsg::AppendEntries {
            term: 6,
            prev_log_index: 10,
            prev_log_term: 5,
            entries: vec![
                LogEntry { term: 6, entry_type: EntryType::Command("SET x=1".to_string()) },
                LogEntry { term: 6, entry_type: EntryType::ConfigChange(ConfigurationChange::AddServer(4)) },
                LogEntry { term: 6, entry_type: EntryType::ConfigChange(ConfigurationChange::RemoveServer(1)) },
            ],
            leader_commit: 9,
        },
        RaftMsg::AppendEntriesResponse { term: 6, success: false, match_index: 3 },
        RaftMsg::InstallSnapshot {
            term: 7,
            leader_id: 1,
            last_included_index: 20,
            last_included_term: 6,
            offset: 512,
            data: vec![0, 255, 7],
            done: true,
        },
        RaftMsg::InstallSnapshotResponse { term: 7, success: true },
    ]
}

#[test]
fn every_message_survives_the_round_trip() {
    for msg in all_messages() {
        let back = WireRaftMsg::from_msg(msg.clone()).into_msg();
        assert_eq!(back, msg);
    }
}

#[test]
fn wire_form_keeps_the_fields() {
    let msg = RaftMsg::AppendEntries {
        term: 2,
        prev_log_index: 1,
        prev_log_term: 1,
        entries: vec![LogEntry { term: 2, entry_type: EntryType::Command("a".to_string()) }],
        leader_commit: 1,
    };
    assert_eq!(
        WireRaftMsg::from_msg(msg),
        WireRaftMsg::AppendEntries {
            term: 2,
            prev_log_index: 1,
            prev_log_term: 1,
            entries: vec![WireLogEntry { term: 2, entry_type: WireEntryType::Command { payload: "a".to_string() } }],
            leader_commit: 1,
        }
    );
}

#[test]
fn membership_changes_survive_the_round_trip() {
    for change in [ConfigurationChange::AddServer(3), ConfigurationChange::RemoveServer(8)] {
        assert_eq!(WireConfigurationChange::from_change(change).into_change(), change);
    }
    assert_eq!(
        WireConfigurationChange::from_change(ConfigurationChange::RemoveServer(8)),
        WireConfigurationChange::RemoveServer { node_id: 8 }
    );
}

#[test]
fn log_entries_survive_the_round_trip() {
    let entry = LogEntry { term: 5, entry_type: EntryType::ConfigChange(ConfigurationChange::AddServer(2)) };
    let wire = WireLogEntry::from_entry(entry.clone());
    assert_eq!(wire.copy(), wire);
    assert_eq!(wire.into_entry(), entry);
}
