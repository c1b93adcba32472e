# bevy_xilem

A Bevy-first UI layer: ECS components describe the interface, a CSS-like stylesheet
styles it, built-in controls (combo boxes, dialogs, tooltips, checkboxes, switches,
radio groups, tabs, trees, text inputs) react to actions, and a Fluent registry
localizes text.

`src/` is the verified library. It holds the component data and every decision the
framework makes: the style cascade and its invalidation, the transition plan,
interaction markers, overlay actions, the overlay stack and outside-click dismissal,
pointer bubbling, widget state changes, the button state machine, template part
texts, the projector registry, localization fallbacks and font stacks, the input
bridge's window and button tracking, and the naming, filtering and framing rules of
single-instance activation. Each public function states its result in its contract;
the `lemma_*` proof functions state the properties that hold across calls.

`app/` wires the library into Bevy: component and resource copies, exclusive systems
that read the world, call the library and apply its answer, file and socket I/O for
activation and Fluent loading, logging, and the float-valued parts (colour tweens,
toasts, split panes, text metrics, scroll and resize handling).

`tests/` exercises the library on concrete values.
