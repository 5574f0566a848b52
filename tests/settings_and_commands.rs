use tg_gpt_bot::config_manager::{ConfigLoad, ConfigManager};
use tg_gpt_bot::response::{
    gamble, game_for, games_requested, image_answer, image_answer_from, Game, ImageAnswer, GAMBLE_MAX,
};

fn custom() -> ConfigManager {
    ConfigManager {
        chat_model: "gpt-3.5-turbo".to_string(),
        chat_base_prompt: "Test write".to_string(),
        max_tokens: 512,
        image_size: "256x256".to_string(),
    }
}

#[test]
fn default_settings() {
    let d = ConfigManager::default();
    assert_eq!(d.chat_model, "gpt-4");
    assert_eq!(d.max_tokens, 1024);
    assert_eq!(d.image_size, "512x512");
    assert!(d.chat_base_prompt.starts_with("You are an assistant that is built into a Telegram bot."));
}

#[test]
fn stored_settings_are_loaded() {
    let r = ConfigManager::new(Ok(custom()));
    assert!(!r.needs_write());
    assert!(matches!(r, ConfigLoad::Loaded(_)));
    let s = r.settings();
    assert_eq!(s.chat_base_prompt, "Test write");
    assert_eq!(s.max_tokens, 512);
}

#[test]
fn unreadable_settings_are_defaulted() {
    let r = ConfigManager::new(Err("missing field `chat_base_prompt`".to_string()));
    assert!(r.needs_write());
    match &r {
        ConfigLoad::Defaulted(_, why) => assert_eq!(why, "missing field `chat_base_prompt`"),
        ConfigLoad::Loaded(_) => panic!("expected defaults"),
    }
    let s = r.settings();
    assert_eq!(s.chat_model, "gpt-4");
    assert_eq!(s.image_size, "512x512");
}

#[test]
fn games_requested_parses_and_clamps() {
    assert_eq!(games_requested(""), 1);
    assert_eq!(games_requested("3"), 3);
    assert_eq!(games_requested("+4"), 4);
    assert_eq!(games_requested("0"), 0);
    assert_eq!(games_requested("25"), GAMBLE_MAX);
    assert_eq!(games_requested("-1"), 1);
    assert_eq!(games_requested("two"), 1);
    assert_eq!(games_requested("99999999999"), 1);
}

#[test]
fn each_draw_has_its_game() {
    let expected = [
        Game::Dice,
        Game::Darts,
        Game::Basketball,
        Game::Football,
        Game::Bowling,
        Game::SlotMachine,
        Game::Lose,
    ];
    for (d, g) in expected.iter().enumerate() {
        assert_eq!(game_for(d as u32), *g);
    }
}

#[test]
fn gamble_plays_requested_number() {
    assert_eq!(gamble("3").len(), 3);
    assert_eq!(gamble("").len(), 1);
    assert_eq!(gamble("50").len(), 10);
}

#[test]
fn image_answer_sends_urls_as_photos() {
    assert_eq!(
        image_answer("https://example.com/a.png".to_string()),
        ImageAnswer::Photo("https://example.com/a.png".to_string())
    );
    assert_eq!(
        image_answer("Error during API call: timeout".to_string()),
        ImageAnswer::Text("Error during API call: timeout".to_string())
    );
}

#[test]
fn image_answer_from_follows_flag() {
    assert_eq!(
        image_answer_from("x".to_string(), true),
        ImageAnswer::Photo("x".to_string())
    );
    assert_eq!(
        image_answer_from("x".to_string(), false),
        ImageAnswer::Text("x".to_string())
    );
}
