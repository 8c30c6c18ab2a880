use simple_actor::builder::one_shot::OneShotActorBuilder;
use simple_actor::common::StateHandlerChoice;
use simple_actor::{ActorBuilder, DefaultStateHandler, Res, StateHandler};

struct Custom;

impl StateHandler<String> for Custom {
    fn init(&mut self, _name: String) -> Res<(), String> {
        Ok(())
    }

    fn terminate(&mut self, _name: String, _reason: &Res<(), String>) {}
}

#[test]
fn builder_defaults() {
    let config = ActorBuilder::new().one_shot().message_actor(7u8).into_config();
    assert_eq!("", config.name);
    assert_eq!(32, config.receive_buffer_size);
    assert_eq!(7, config.handler);
    assert!(matches!(config.state_handler, StateHandlerChoice::Default(_)));
}

#[test]
fn builder_settings() {
    let config = ActorBuilder::new()
        .name("test_actor")
        .receive_buffer_size(128)
        .one_shot()
        .state_handler(Custom)
        .request_actor("handler")
        .into_config();
    assert_eq!("test_actor", config.name);
    assert_eq!(128, config.receive_buffer_size);
    assert_eq!("handler", config.handler);
    assert!(matches!(config.state_handler, StateHandlerChoice::Custom(Custom)));

    let config = OneShotActorBuilder::new(ActorBuilder::new().name("HybridActor"))
        .hybrid_actor(1u32)
        .into_config();
    assert_eq!("HybridActor", config.name);
    assert_eq!(1, config.handler);
}

#[test]
fn reusable_builder_makes_fresh_handlers() {
    let builder = ActorBuilder::new().name("TestActor").reusable().message_actor(|| vec![0u8]);
    let mut first = builder.config();
    first.handler.push(1);
    let second = builder.config();
    assert_eq!(vec![0u8], second.handler);
    assert_eq!("TestActor", second.name);
    assert_eq!(32, second.receive_buffer_size);
    assert!(matches!(second.state_handler, StateHandlerChoice::Default(_)));
}

#[test]
fn legacy_builder() {
    let config = simple_actor::builder::ActorBuilder::new()
        .name("test_actor")
        .receive_buffer_size(64)
        .configure(3u8);
    assert_eq!("test_actor", config.name);
    assert_eq!(64, config.receive_buffer_size);
    assert!(matches!(config.state_handler, StateHandlerChoice::Default(_)));
    let config = simple_actor::builder::ActorBuilder::new().state_handler(Custom).configure(());
    assert!(matches!(config.state_handler, StateHandlerChoice::Custom(Custom)));
    assert_eq!(32, config.receive_buffer_size);
}

#[test]
fn default_state_handler_succeeds() {
    let mut handler = *DefaultStateHandler::new_ref();
    let r: Res<(), String> = handler.init("a".to_string());
    assert!(r.is_ok());
    StateHandler::<String>::terminate(&mut handler, "a".to_string(), &Ok(()));
}
