# si_model

Entities of the system model, verified with Verus: how they are compared, looked up, saved
and read, and how a change to one of them spreads to the others.

An entity holds its properties as JSON, by system. It is seen at the head, in a change set
or in an edit session. When it is created or updated, a service infers its properties from
those of the entities around it; where that changes it, the entities that it configures are
inferred anew, and so on. Another service checks its qualifications.

The library in `src/` does no input or output. What needs some is a task: it says what it
wants done, is handed the answer, and says what it wants next.

| module | what it holds |
| --- | --- |
| `entity` | entities, their equality, the queries for them, reading a property |
| `inference` | the task that infers the properties of an entity |
| `editing` | the task that creates or updates an entity |
| `successors` | the task that spreads a change to what depends on it |
| `spread` | how far a change spreads |
| `qualification` | the task that checks the qualifications of an entity |
| `op`, `storable`, `edge`, `query`, `error`, `code_generation` | the types these work on |
| `lodash`, `json`, `text` | reading JSON at a path, JSON values, lists of strings |

Each type has a mathematical model, and each task a function on the models that says what
it makes of an answer, or of a failure that can come in its place. The executable functions
are proved against these; the `law_` functions state what follows for whole runs.

JSON values are those of `serde_json`. What is believed of that crate without proof stands
in `json.rs`; what is believed of the standard library stands in `error.rs`.

`app/` runs the tasks against PostgreSQL and the services that the embedding program
provides, and holds the JSON forms of the library's types.
