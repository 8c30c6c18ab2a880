# simple_actor

An actor library after Erlang's `gen_server`: an actor owns a state and processes
the commands it receives one at a time. A command is a message (asynchronous) or a
request (the client waits for the reply).

## Layout

- `src/` is the verified library. It holds the actor model's decisions, each a
  function from a state and an event to the next state and an action, with its
  contract and the laws that hold over whole runs:
  - `server.rs`: the life of an actor server (initialization, receiving, processing,
    exit value) and its laws;
  - `processing.rs`: how message, request and hybrid actors route their commands,
    deliver replies and continue requests computed in the background;
  - `client.rs`: what message and request clients report;
  - `scheduler.rs`: when a scheduler stops, and with which result;
  - `notify.rs`: bridges from a notification or a semaphore to an actor;
  - `builder.rs`, `builder/`: the builders that configure actors;
  - `machine.rs`: runs of these state machines, and the lemmas about runs;
  - `common.rs`: errors, commands, the error-identification helper, state handlers.
- `app/` is the runtime on tokio: the tasks that await channels, timers and handlers,
  the asynchronous handler and client traits, and the `build` step of the builders.
  It performs the library's actions and feeds the events back.
- `tests/` exercises the library, including synchronous runs of whole actors.
