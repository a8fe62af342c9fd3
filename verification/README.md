# sdk_core: session driver supervision

The protocol steps of a session only make progress while the session's driver runs
in the background. This crate decides what happens to them when the driver ends:

* a step that is ready wins, and leaves the driver's result for the end;
* a step that is still pending fails once the driver has ended;
* at the end of the session the driver's result is the transport, handed back, or
  the reason why there is none.

`src/` is the verified library. It works poll by poll, so that it needs no runtime:
`DriverTask::poll_during` and `DriverTask::poll_finish` take the task context and
poll the one-shot channel (`futures::channel::oneshot`) on which the driver's result
arrives. `src/channel.rs` states what is taken on trust of that channel, and
`src/laws.rs` what holds across several calls.

`app/` is the asynchronous layer: it spawns the driver and awaits the library's polls.
`tests/` runs the library on the real channel.
