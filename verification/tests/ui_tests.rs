use cka_buddy_tui::command_info::command_blurb;
use cka_buddy_tui::ui::big_numbers::split_digits;
use cka_buddy_tui::ui::clickable_list::{ClickableList, ClickableListItem};
use cka_buddy_tui::ui::cluster_view::{
    component_icon, extract_pod_names, pod_icon, ClusterScene, ComponentState, PodStatus,
};
use cka_buddy_tui::ui::learning_screen::LearningScreen;
use cka_buddy_tui::ui::popup::PopupMessage;
use cka_buddy_tui::ui::splash_screen::{SplashItem, SplashScreen};
use cka_buddy_tui::ui::tamagotchi::{EvolutionStage, Mood, Tamagotchi};
use cka_buddy_tui::ui::ui_action::UiAction;
use cka_buddy_tui::ui::ui_screen::{ScreenState, UiScreen};
use cka_buddy_tui::ui::widgets::{divider, ellipsize, footer_help_text, readiness_segments};

#[test]
fn blurbs_cover_tools_subcommands_and_resources() {
    assert_eq!(command_blurb(""), "A mystery command — try running it to find out");
    assert_eq!(command_blurb("helm install web"), "Like ordering from IKEA — chart, flat-pack, assemble");
    assert_eq!(command_blurb("kubectl"), "Your remote control for the entire cluster");
    assert_eq!(command_blurb("terraform plan"), "A tool in your Kubernetes toolkit");
    assert_eq!(command_blurb("kubectl get pods"), "Individual workers clocked in on the factory floor");
    assert_eq!(command_blurb("kubectl get svc"), "The receptionist routing visitors to the right desk");
    assert_eq!(command_blurb("kubectl drain node-1"), "Evacuating tenants before the building demo");
    assert_eq!(command_blurb("kubectl logs"), "Reading a ship's logbook after the voyage");
    assert_eq!(command_blurb("kubectl frobnicate"), "A kubectl spell — check the docs for details");
    assert_eq!(command_blurb("kubectl get namespace"), "Floors in the building — same address, separate spaces");
    assert_eq!(command_blurb("kubectl get deployments"), "The HR contract: how many staff, which version");
}

#[test]
fn widgets_render_expected_text() {
    let (filled, empty) = readiness_segments(50, 10);
    assert_eq!(filled, "█████");
    assert_eq!(empty, "░░░░░");
    assert_eq!(divider(3).chars().count(), 8);
    assert_eq!(divider(12).chars().count(), 12);
    assert_eq!(ellipsize("short", 10), "short");
    assert_eq!(ellipsize("a very long label", 8), "a ver...");
    assert_eq!(ellipsize("abcdef", 2), "...");
    assert_eq!(footer_help_text("/hint"), "/hint — Ask the coach for a contextual hint");
    assert_eq!(footer_help_text("/xyz"), "Type a slash command. /help for full list.");
    assert_eq!(footer_help_text(""), "Type kubectl commands or /help for available commands");
    assert_eq!(footer_help_text("kubectl get po"), "Press Enter to execute: kubectl get po");
}

#[test]
fn readiness_digits_cap_at_one_hundred() {
    assert_eq!(split_digits(7), vec![7]);
    assert_eq!(split_digits(42), vec![4, 2]);
    assert_eq!(split_digits(100), vec![1, 0, 0]);
    assert_eq!(split_digits(255), vec![1, 0, 0]);
}

#[test]
fn evolution_follows_readiness() {
    assert_eq!(EvolutionStage::from_readiness(0), EvolutionStage::Egg);
    assert_eq!(EvolutionStage::from_readiness(10), EvolutionStage::Egg);
    assert_eq!(EvolutionStage::from_readiness(11), EvolutionStage::Hatchling);
    assert_eq!(EvolutionStage::from_readiness(35), EvolutionStage::Hatchling);
    assert_eq!(EvolutionStage::from_readiness(36), EvolutionStage::Juvenile);
    assert_eq!(EvolutionStage::from_readiness(70), EvolutionStage::Juvenile);
    assert_eq!(EvolutionStage::from_readiness(71), EvolutionStage::Adult);
}

#[test]
fn tamagotchi_counts_failing_pods() {
    let pods = vec!["web-0".to_string(), "db-FAILing".to_string(), "api".to_string()];
    let pet = Tamagotchi::new(60, &pods, 7);
    assert_eq!(pet.mood, Mood::Sick);
    assert_eq!(pet.pod_count, 3);
    assert_eq!(pet.healthy_pods, 2);
    assert_eq!(pet.name, "Kube-chan");
    assert_eq!(pet.status_line(), "◉ ✖ 60% | Kube-chan 2/3");

    let healthy = Tamagotchi::new(60, &vec!["web".to_string()], 21);
    assert_eq!(healthy.mood, Mood::Happy);
    let idle = Tamagotchi::new(40, &vec!["web".to_string()], 21);
    assert_eq!(idle.mood, Mood::Idle);
    let eating = Tamagotchi::new(40, &vec!["web".to_string()], 0);
    assert_eq!(eating.mood, Mood::Eating);
}

#[test]
fn popups_build_their_tables() {
    match PopupMessage::help() {
        PopupMessage::Help { commands } => {
            assert_eq!(commands.len(), 15);
            assert_eq!(commands[0], ("/new", "Reset progress and restart from Project 00"));
            assert_eq!(commands[14], ("Ctrl+C", "Quick quit from anywhere"));
        }
        _ => panic!("expected the help popup"),
    }
    let mut tutorial = PopupMessage::tutorial();
    match &tutorial {
        PopupMessage::Tutorial { page, total_pages, content } => {
            assert_eq!(*page, 0);
            assert_eq!(*total_pages, 3);
            assert_eq!(content.len(), 3);
            assert_eq!(content[0].0, "Welcome to CKA Buddy");
            assert_eq!(content[2].0, "Interface Guide");
        }
        _ => panic!("expected the tutorial popup"),
    }
    assert!(!tutorial.is_last_tutorial_page());
    tutorial.navigate_tutorial(5);
    assert!(tutorial.is_last_tutorial_page());
    tutorial.navigate_tutorial(-1);
    assert!(!tutorial.is_last_tutorial_page());
    tutorial.navigate_tutorial(-9);
    match &tutorial {
        PopupMessage::Tutorial { page, .. } => assert_eq!(*page, 0),
        _ => panic!("expected the tutorial popup"),
    }
}

#[test]
fn splash_menu_depends_on_saved_progress() {
    let fresh = SplashScreen::new(false);
    assert_eq!(fresh.menu, vec![SplashItem::NewSession, SplashItem::Quit]);
    let resumed = SplashScreen::new(true);
    assert_eq!(
        resumed.menu,
        vec![SplashItem::Continue, SplashItem::NewSession, SplashItem::Quit]
    );
    assert_eq!(SplashScreen::menu_label(SplashItem::Quit), "▸ Quit");
}

#[test]
fn learning_screen_starts_with_a_greeting() {
    let screen = LearningScreen::new("ready".to_string());
    assert_eq!(screen.status, "ready");
    assert_eq!(screen.output_log, vec!["CKA Coach terminal started (/bin/zsh)."]);
    assert!(screen.command_input.is_empty());
    assert!(screen.hint_message.is_none());
}

#[test]
fn ui_screen_manages_its_popup_stack() {
    let mut ui = UiScreen::new("ready".to_string(), false);
    assert_eq!(ui.state, ScreenState::Splash);
    assert!(!ui.has_popup());
    ui.push_popup(PopupMessage::help());
    ui.push_popup(PopupMessage::tutorial());
    assert!(ui.has_popup());
    ui.dismiss_popup();
    assert!(matches!(ui.popup_stack.last(), Some(PopupMessage::Help { .. })));
    ui.dismiss_popup();
    ui.dismiss_popup();
    assert!(!ui.has_popup());
    ui.transition_to_learning();
    assert_eq!(ui.state, ScreenState::Learning);
}

#[test]
fn clickable_list_builders_chain() {
    let items = vec![ClickableListItem {
        label: "Continue".to_string(),
        description: "Resume the session".to_string(),
        on_click: UiAction::StartSession,
    }];
    let _list = ClickableList::new(&items).selected(Some(0)).scroll_offset(0).layer(1);
}

#[test]
fn scenes_follow_the_domain() {
    let commands = vec!["kubectl get pods -l app=nginx".to_string()];
    let scene = ClusterScene::for_domain("Networking", &commands, 1);
    assert_eq!(scene.domain, "networking");
    assert_eq!(scene.nodes.len(), 2);
    assert_eq!(scene.nodes[0].pods[0].name, "nginx");
    assert_eq!(scene.nodes[0].pods[0].status, PodStatus::Running);

    let trouble = ClusterScene::for_domain("Troubleshooting", &Vec::new(), 0);
    assert_eq!(trouble.domain, "troubleshooting");
    assert_eq!(trouble.control_plane.etcd, ComponentState::Degraded);
    assert_eq!(trouble.nodes[0].pods[0].status, PodStatus::CrashLoop);

    let overview = ClusterScene::for_domain("General", &Vec::new(), 0);
    assert_eq!(overview.domain, "cluster");
    assert_eq!(overview.services[0].name, "kubernetes");
    assert_eq!(overview.services[0].port, 443);
}

#[test]
fn scene_ticks_and_flashes() {
    let mut scene = ClusterScene::for_domain("storage", &Vec::new(), 0);
    assert_eq!(scene.tick, 0);
    scene.tick();
    assert_eq!(scene.tick, 1);
    scene.trigger_flash();
    assert_eq!(scene.flash_remaining, 20);
    scene.tick();
    assert_eq!(scene.flash_remaining, 19);
}

#[test]
fn pod_names_come_from_the_commands() {
    let commands = vec![
        "kubectl run nginx --image=nginx".to_string(),
        "kubectl get pods redis".to_string(),
    ];
    assert_eq!(extract_pod_names(&commands), vec!["nginx", "redis"]);
    assert_eq!(extract_pod_names(&Vec::new()), vec!["app"]);
    let many = vec!["nginx redis mysql postgres app web".to_string()];
    assert_eq!(extract_pod_names(&many), vec!["nginx", "redis", "mysql", "postgres"]);
}

#[test]
fn icons_animate_with_the_tick() {
    assert_eq!(component_icon(ComponentState::Healthy, 0), "◉");
    assert_eq!(component_icon(ComponentState::Healthy, 10), "●");
    assert_eq!(component_icon(ComponentState::Degraded, 0), "◎");
    assert_eq!(component_icon(ComponentState::Down, 0), "○");
    assert_eq!(pod_icon(PodStatus::Running, 0), "☸");
    assert_eq!(pod_icon(PodStatus::Pending, 0), "◌");
    assert_eq!(pod_icon(PodStatus::Pending, 5), "◔");
    assert_eq!(pod_icon(PodStatus::CrashLoop, 0), "✖");
    assert_eq!(pod_icon(PodStatus::CrashLoop, 5), " ");
    assert_eq!(pod_icon(PodStatus::Completed, 3), "✓");
}
