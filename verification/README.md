# farm_resolve

Module resolution for a JavaScript bundler, and the options of its module
federation plugin, written in Verus with their behaviour proved.

## Layout

- `src/` — the verified library.
  - `strings.rs`: prefix, suffix and trimming operations on strings.
  - `paths.rs`: the path operations of `std::path` and `relative-path`, each
    behind a trusted wrapper.
  - `json.rs`: the JSON value read from `package.json`, member lookup, and the
    compact JSON text of a value.
  - `model.rs`: configuration, request kinds, `package.json` information and
    resolution results.
  - `resolver.rs`: decisions taken from a `package.json` alone (`browser`,
    `imports`, `exports`, side effects, externals) and the shape of a source.
  - `facts.rs`: the answers about the file system recorded so far, and the
    questions the resolver asks.
  - `resolution.rs`: resolution one step at a time: each step gives a result,
    a reason to stop, or the next question whose answer is missing.
  - `stability.rs`: the laws of that protocol.
  - `federation.rs`: validation and normalization of the federation options.
- `app/` — the parts that read the disk, parse JSON text and print: the loop
  that answers the resolver's questions, and the plugin built from options
  given as JSON.
- `tests/` — scenarios on concrete values, including an in-memory file system.

## Resolving a request

`Resolver::resolve(source, base_dir, kind, facts)` never touches the disk. A
caller records answers in an `FsFacts` until the step ends:

```text
loop {
    match resolver.resolve(source, base_dir, &kind, &facts) {
        Eval::Done(result) => break result,
        Eval::Abort(reason) => panic!(...),
        Eval::Need(question) => record the answer to `question` in `facts`,
    }
}
```

A step asks only questions that have no recorded answer, and a step that has
ended ends the same way whatever is recorded afterwards.

## Targets

Paths are handled with Unix rules (a path is absolute when it starts with
`/`); the trusted path wrappers state those rules.
