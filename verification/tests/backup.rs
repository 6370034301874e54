use cyrfix::backup::backup_file_name;
use cyrfix::backup::BackupManager;

#[test]
fn backup_name_appends_bak() {
    assert_eq!(backup_file_name("song.mp3"), "song.mp3.bak");
    assert_eq!(backup_file_name("album.cue"), "album.cue.bak");
}

#[test]
fn backups_wanted_by_default() {
    let manager = BackupManager::new(false);
    assert!(manager.wants_backup());
}

#[test]
fn no_backup_flag_disables_backups() {
    let manager = BackupManager::new(true);
    assert!(!manager.wants_backup());
}
