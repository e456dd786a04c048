use bbb_provision::command::Command;
use bbb_provision::gate::{
    is_mounted, prepare_mount_path, unmount_all_partitions, Identity, SUPERUSER,
};
use bbb_provision::step::{Action, Policy, Stage, Step};

fn invocation(program: &str, args: &[&str]) -> Command {
    Command { program: program.to_string(), args: args.iter().map(|a| a.to_string()).collect() }
}

#[test]
fn the_invoking_user_is_the_recorded_one() {
    let id = Identity::resolve(Some("alice".to_string()), "root".to_string());
    assert_eq!(id, Identity { effective: "root".to_string(), invoking: "alice".to_string() });
    assert!(id.is_elevated());
}

#[test]
fn without_a_record_the_invoking_user_is_the_account() {
    let id = Identity::resolve(None, "root".to_string());
    assert_eq!(id, Identity { effective: "root".to_string(), invoking: "root".to_string() });
    let plain = Identity::resolve(None, "bob".to_string());
    assert_eq!(plain, Identity { effective: "bob".to_string(), invoking: "bob".to_string() });
    assert!(!plain.is_elevated());
}

#[test]
fn only_the_superuser_is_elevated() {
    assert_eq!(SUPERUSER, "root");
    for name in ["", "Root", "root ", "toor", "admin", "rootroot", "alice"] {
        let id = Identity::resolve(Some("root".to_string()), name.to_string());
        assert!(!id.is_elevated(), "{:?}", name);
    }
}

#[test]
fn the_current_identity_keeps_the_recorded_user() {
    let id = Identity::current(Some("alice".to_string()));
    assert_eq!(id.invoking, "alice");
    assert!(!id.effective.is_empty());
    assert_eq!(id.is_elevated(), id.effective == "root");
}

#[test]
fn the_current_identity_falls_back_to_the_account() {
    let id = Identity::current(None);
    assert_eq!(id.invoking, id.effective);
    assert!(!id.invoking.is_empty());
}

#[test]
fn every_listed_node_is_force_unmounted() {
    let listing = "sdb    8:16   1 14.9G  0 disk \nsdb1   8:17   1  200M  0 part /media/u/BOOT\nsdb2   8:18   1 14.7G  0 part /media/u/root\n";
    assert_eq!(unmount_all_partitions(listing), vec![
        invocation("umount", &["-f", "/dev/sdb"]),
        invocation("umount", &["-f", "/dev/sdb1"]),
        invocation("umount", &["-f", "/dev/sdb2"]),
    ]);
}

#[test]
fn blank_lines_of_a_listing_are_passed_over() {
    assert_eq!(unmount_all_partitions(""), Vec::<Command>::new());
    assert_eq!(unmount_all_partitions("\n   \n\t\n"), Vec::<Command>::new());
    assert_eq!(unmount_all_partitions("\n  mmcblk0p1 179:1\n\n"), vec![invocation("umount", &[
        "-f",
        "/dev/mmcblk0p1"
    ])]);
}

#[test]
fn unmounting_twice_asks_for_the_same() {
    let listing = "sdb 8:16\nsdb1 8:17\n";
    assert_eq!(unmount_all_partitions(listing), unmount_all_partitions(listing));
}

#[test]
fn the_staging_path_is_freed_removed_and_recreated() {
    let steps = prepare_mount_path("/home/u/mnt");
    assert_eq!(steps, vec![
        Step {
            stage: Stage::PrepareStaging,
            action: Action::Run(invocation("fuser", &["-k", "/home/u/mnt"])),
            policy: Policy::BestEffort,
            purpose: "terminate processes using the mount path".to_string(),
        },
        Step {
            stage: Stage::PrepareStaging,
            action: Action::Run(invocation("umount", &["-f", "/home/u/mnt"])),
            policy: Policy::BestEffort,
            purpose: "unmount the mount path".to_string(),
        },
        Step {
            stage: Stage::PrepareStaging,
            action: Action::RemoveTree("/home/u/mnt".to_string()),
            policy: Policy::BestEffort,
            purpose: "remove the mount path".to_string(),
        },
        Step {
            stage: Stage::PrepareStaging,
            action: Action::MakeDir("/home/u/mnt".to_string()),
            policy: Policy::Fatal,
            purpose: "create the mount path".to_string(),
        },
    ]);
}

/// A directory tree held in memory, on which the staging steps are carried out.
struct Tree {
    paths: Vec<String>,
    mounted: Vec<String>,
}

impl Tree {
    fn perform(&mut self, action: &Action) -> bool {
        match action {
            Action::Run(c) if c.program == "umount" => {
                let path = c.args[1].clone();
                let was = self.mounted.contains(&path);
                self.mounted.retain(|m| *m != path);
                was
            }
            Action::Run(_) => true,
            Action::Probe(p) => self.paths.contains(p),
            Action::RemoveTree(p) => {
                let was = self.paths.contains(p);
                let below = format!("{}/", p);
                self.paths.retain(|q| q != p && !q.starts_with(&below));
                was
            }
            Action::MakeDir(p) => {
                if self.paths.contains(p) {
                    false
                } else {
                    self.paths.push(p.clone());
                    true
                }
            }
            Action::MakeDirs(p) => {
                if !self.paths.contains(p) {
                    self.paths.push(p.clone());
                }
                true
            }
            Action::Copy { from, to } => {
                if self.paths.contains(from) {
                    self.paths.push(to.clone());
                    true
                } else {
                    false
                }
            }
        }
    }

    /// Carries out the steps; says whether none that has to succeed failed.
    fn carry_out(&mut self, steps: &[Step]) -> bool {
        for step in steps {
            let ok = self.perform(&step.action);
            if !ok && step.policy == Policy::Fatal {
                return false;
            }
        }
        true
    }

    fn is_empty_dir(&self, path: &str) -> bool {
        let below = format!("{}/", path);
        self.paths.iter().any(|p| p == path) && !self.paths.iter().any(|p| p.starts_with(&below))
    }
}

#[test]
fn preparing_the_staging_path_twice_leaves_it_empty_both_times() {
    let mut tree = Tree {
        paths: vec![
            "/home/u/mnt".to_string(),
            "/home/u/mnt/boot".to_string(),
            "/home/u/mnt/boot/MLO".to_string(),
            "/home/u/other".to_string(),
        ],
        mounted: vec!["/home/u/mnt".to_string()],
    };
    assert!(tree.carry_out(&prepare_mount_path("/home/u/mnt")));
    assert!(tree.is_empty_dir("/home/u/mnt"));
    assert!(tree.mounted.is_empty());
    assert!(tree.carry_out(&prepare_mount_path("/home/u/mnt")));
    assert!(tree.is_empty_dir("/home/u/mnt"));
    assert!(tree.paths.contains(&"/home/u/other".to_string()));
}

#[test]
fn preparing_a_staging_path_that_is_not_there_creates_it() {
    let mut tree = Tree { paths: Vec::new(), mounted: Vec::new() };
    assert!(tree.carry_out(&prepare_mount_path("/home/u/mnt")));
    assert!(tree.is_empty_dir("/home/u/mnt"));
    assert!(tree.carry_out(&prepare_mount_path("/home/u/mnt")));
    assert!(tree.is_empty_dir("/home/u/mnt"));
}

#[test]
fn a_mount_report_with_any_text_means_mounted() {
    assert!(is_mounted("/media/usb\n"));
    assert!(is_mounted("\n/media/usb\n"));
    assert!(!is_mounted(""));
    assert!(!is_mounted("\n\n  \n"));
}
